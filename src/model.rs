//! Descriptors and results exchanged with MCP clients.
use vstd::prelude::*;

verus! {

/// Metadata of a registered resource.
#[derive(Debug)]
pub struct ResourceDescriptor {
    pub uri: String,
    pub name: String,
    pub description: String,
    pub mime_type: String,
}

impl Clone for ResourceDescriptor {
    fn clone(&self) -> (r: Self)
        ensures
            r == *self,
    {
        ResourceDescriptor {
            uri: self.uri.clone(),
            name: self.name.clone(),
            description: self.description.clone(),
            mime_type: self.mime_type.clone(),
        }
    }
}

/// One declared argument of a prompt.
#[derive(Debug)]
pub struct PromptArgument {
    pub name: String,
    pub description: String,
    pub required: bool,
}

impl Clone for PromptArgument {
    fn clone(&self) -> (r: Self)
        ensures
            r == *self,
    {
        PromptArgument {
            name: self.name.clone(),
            description: self.description.clone(),
            required: self.required,
        }
    }
}

/// Metadata of a registered prompt; `arguments` keeps its declared order.
#[derive(Debug)]
pub struct PromptDescriptor {
    pub name: String,
    pub description: String,
    pub arguments: Vec<PromptArgument>,
}

/// Copies a list of prompt arguments element by element.
pub fn clone_arguments(args: &Vec<PromptArgument>) -> (r: Vec<PromptArgument>)
    ensures
        r@ == args@,
{
    let mut r: Vec<PromptArgument> = Vec::new();
    let mut i: usize = 0;
    while i < args.len()
        invariant
            i <= args@.len(),
            r@ == args@.subrange(0, i as int),
        decreases args@.len() - i,
    {
        r.push(args[i].clone());
        i = i + 1;
    }
    proof {
        assert(args@.subrange(0, args@.len() as int) =~= args@);
    }
    r
}

/// Two prompt descriptors hold the same name, description and arguments.
pub open spec fn same_prompt(a: PromptDescriptor, b: PromptDescriptor) -> bool {
    a.name == b.name && a.description == b.description && a.arguments@ == b.arguments@
}

impl PromptDescriptor {
    /// A copy of this descriptor.
    pub fn duplicate(&self) -> (r: Self)
        ensures
            same_prompt(r, *self),
    {
        PromptDescriptor {
            name: self.name.clone(),
            description: self.description.clone(),
            arguments: clone_arguments(&self.arguments),
        }
    }
}

/// One piece of content returned by a read. Exactly one of `text` and
/// `blob` (base64) is present.
#[derive(Debug)]
pub struct ResourceContent {
    pub uri: String,
    pub mime_type: String,
    pub text: Option<String>,
    pub blob: Option<String>,
}

impl ResourceContent {
    /// Exactly one of `text` and `blob` is present.
    pub open spec fn wf(&self) -> bool {
        self.text.is_some() != self.blob.is_some()
    }
}

/// The contents returned by a resource read.
#[derive(Debug)]
pub struct ResourceReadResult {
    pub contents: Vec<ResourceContent>,
}

/// The single text content `{uri, mime_type, text}`.
pub open spec fn text_content(uri: String, mime_type: String, text: String) -> ResourceContent {
    ResourceContent { uri, mime_type, text: Some(text), blob: None }
}

/// `r` holds exactly one content: `text` under `uri` and `mime_type`.
pub open spec fn is_text_result(
    r: ResourceReadResult,
    uri: String,
    mime_type: String,
    text: String,
) -> bool {
    r.contents@ == seq![text_content(uri, mime_type, text)]
}

/// Builds the single-content result for a text body.
pub fn text_result(uri: String, mime_type: String, text: String) -> (r: ResourceReadResult)
    ensures
        is_text_result(r, uri, mime_type, text),
        r.contents@[0].wf(),
{
    let c = ResourceContent { uri, mime_type, text: Some(text), blob: None };
    let mut contents: Vec<ResourceContent> = Vec::new();
    contents.push(c);
    proof {
        assert(contents@ =~= seq![text_content(uri, mime_type, text)]);
    }
    ResourceReadResult { contents }
}

/// What a prompt renders to.
#[derive(Debug)]
pub struct PromptExecutionResult {
    pub description: String,
    pub message: String,
}

} // verus!
