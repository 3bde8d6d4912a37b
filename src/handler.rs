//! Resource and prompt handlers: a static body, a template, or a remote URL.
//!
//! A handler never performs I/O itself. Where the body lives at a URL the
//! handler answers with the URL to fetch, and the fetched outcome is turned
//! into a result by `load_resource_by_http` or `finish_prompt_fetch`.
use vstd::prelude::*;
use vstd::string::*;
use crate::model::{
    is_text_result, text_result, PromptArgument, PromptDescriptor, PromptExecutionResult,
    ResourceDescriptor, ResourceReadResult,
};
use crate::text::{decimal, decimal_spec, join};

verus! {

/// Where a resource's body comes from.
pub enum ResourceSource {
    /// A body embedded in the catalog.
    Static { text: String },
    /// A body fetched from `url` at read time.
    Http { url: String },
}

/// A registered resource: its metadata and its body's source.
pub struct ResourceEntry {
    pub descriptor: ResourceDescriptor,
    pub source: ResourceSource,
}

/// Why fetching a remote body failed.
#[derive(Debug)]
pub enum FetchError {
    /// DNS, connection, TLS or I/O failure.
    Network { cause: String },
    /// A final response status outside 2xx.
    HttpStatus { status: u16 },
    /// The body is not valid UTF-8.
    Decode,
    /// A deadline passed.
    Timeout,
}

/// The first step of a read or a prompt execution.
pub enum Step<T> {
    /// The result is at hand.
    Ready(T),
    /// The body must first be fetched from `url`.
    Fetch { url: String },
    /// The handler refused; the message says why.
    Failed(String),
}

/// The message of a handler that was handed a URI other than its own.
pub open spec fn unknown_uri_text(uri: Seq<char>) -> Seq<char> {
    "Unknown resource URI: "@ + uri
}

/// Describes a fetch failure.
pub open spec fn fetch_cause_text(e: FetchError) -> Seq<char> {
    match e {
        FetchError::Network { cause } => "network error: "@ + cause@,
        FetchError::HttpStatus { status } => "HTTP status "@ + decimal_spec(status as nat),
        FetchError::Decode => "response body is not valid UTF-8"@,
        FetchError::Timeout => "deadline exceeded"@,
    }
}

/// The message of a failed fetch of `url` on behalf of `uri`.
pub open spec fn fetch_error_text(uri: Seq<char>, url: Seq<char>, e: FetchError) -> Seq<char> {
    "Failed to load "@ + uri + " from "@ + url + ": "@ + fetch_cause_text(e)
}

/// The message for a missing handler URI.
pub fn unknown_uri_message(uri: &String) -> (r: String)
    ensures
        r@ == unknown_uri_text(uri@),
{
    join("Unknown resource URI: ", uri.as_str())
}

fn fetch_cause_message(e: &FetchError) -> (r: String)
    ensures
        r@ == fetch_cause_text(*e),
{
    match e {
        FetchError::Network { cause } => join("network error: ", cause.as_str()),
        FetchError::HttpStatus { status } => {
            let d = decimal(*status as u64);
            join("HTTP status ", d.as_str())
        },
        FetchError::Decode => String::from_str("response body is not valid UTF-8"),
        FetchError::Timeout => String::from_str("deadline exceeded"),
    }
}

/// Describes a failed fetch of `url` made to read `uri`.
pub fn fetch_error_message(uri: &String, url: &String, e: &FetchError) -> (r: String)
    ensures
        r@ == fetch_error_text(uri@, url@, *e),
{
    let mut s = String::from_str("Failed to load ");
    s.append(uri.as_str());
    s.append(" from ");
    s.append(url.as_str());
    s.append(": ");
    let cause = fetch_cause_message(e);
    s.append(cause.as_str());
    proof {
        assert(s@ =~= fetch_error_text(uri@, url@, *e));
    }
    s
}

/// Wraps the outcome of fetching `url` into the result of reading `uri`:
/// the body becomes the single text content; a failure becomes a message
/// that names `uri`, `url` and the cause.
pub fn load_resource_by_http(
    uri: &String,
    mime_type: &String,
    url: &String,
    fetched: Result<String, FetchError>,
) -> (r: Result<ResourceReadResult, String>)
    ensures
        fetched is Ok <==> r is Ok,
        fetched is Ok ==> is_text_result(r->Ok_0, *uri, *mime_type, fetched->Ok_0),
        fetched is Err ==> r->Err_0@ == fetch_error_text(uri@, url@, fetched->Err_0),
{
    match fetched {
        Ok(body) => Ok(text_result(uri.clone(), mime_type.clone(), body)),
        Err(e) => Err(fetch_error_message(uri, url, &e)),
    }
}

impl ResourceEntry {
    /// Starts reading this resource under the requested `uri`. A URI other
    /// than the registered one fails; a static body is returned at once; a
    /// remote body is to be fetched from the configured URL.
    pub fn read(&self, uri: &String) -> (r: Step<ResourceReadResult>)
        ensures
            uri@ != self.descriptor.uri@ ==> r is Failed && r->Failed_0@ == unknown_uri_text(uri@),
            uri@ == self.descriptor.uri@ ==> match self.source {
                ResourceSource::Static { text } => r is Ready && is_text_result(
                    r->Ready_0,
                    self.descriptor.uri,
                    self.descriptor.mime_type,
                    text,
                ),
                ResourceSource::Http { url } => r is Fetch && r->url == url,
            },
    {
        if !uri.eq(&self.descriptor.uri) {
            return Step::Failed(unknown_uri_message(uri));
        }
        match &self.source {
            ResourceSource::Static { text } => Step::Ready(
                text_result(
                    self.descriptor.uri.clone(),
                    self.descriptor.mime_type.clone(),
                    text.clone(),
                ),
            ),
            ResourceSource::Http { url } => Step::Fetch { url: url.clone() },
        }
    }
}

/// A piece of a prompt template.
#[derive(Debug)]
pub enum Segment {
    /// Literal text.
    Text(String),
    /// The value of the named argument, or nothing where it was not supplied.
    Arg(String),
}

/// Where a prompt's message comes from.
pub enum PromptSource {
    /// A fixed message.
    Static { text: String },
    /// A message assembled from literal text and argument values.
    Template { segments: Vec<Segment> },
    /// A message fetched from `url` at execution time.
    Http { url: String },
}

/// A registered prompt: its metadata and its message's source.
pub struct PromptEntry {
    pub descriptor: PromptDescriptor,
    pub source: PromptSource,
}

/// The value supplied for argument `name`: the first pair whose key is `name`.
pub open spec fn lookup(args: Seq<(String, String)>, name: Seq<char>) -> Option<String>
    decreases args.len(),
{
    if args.len() == 0 {
        None
    } else if args[0].0@ == name {
        Some(args[0].1)
    } else {
        lookup(args.drop_first(), name)
    }
}

/// The text that one template segment contributes.
pub open spec fn segment_text(seg: Segment, args: Seq<(String, String)>) -> Seq<char> {
    match seg {
        Segment::Text(t) => t@,
        Segment::Arg(n) => match lookup(args, n@) {
            Some(v) => v@,
            None => Seq::empty(),
        },
    }
}

/// A template's segments rendered one after another.
pub open spec fn render_spec(segs: Seq<Segment>, args: Seq<(String, String)>) -> Seq<char>
    decreases segs.len(),
{
    if segs.len() == 0 {
        Seq::empty()
    } else {
        render_spec(segs.drop_last(), args) + segment_text(segs.last(), args)
    }
}

/// A declared argument is required and no value was supplied for it.
pub open spec fn is_missing(a: PromptArgument, args: Seq<(String, String)>) -> bool {
    a.required && lookup(args, a.name@) is None
}

/// The message for a required argument that was not supplied.
pub open spec fn missing_argument_text(name: Seq<char>) -> Seq<char> {
    "Missing required argument: "@ + name
}

/// Finds the value supplied for argument `name`.
pub fn find_argument<'a>(args: &'a Vec<(String, String)>, name: &String) -> (r: Option<&'a String>)
    ensures
        lookup(args@, name@) is None ==> r is None,
        lookup(args@, name@) is Some ==> r is Some && *r->Some_0 == lookup(args@, name@)->Some_0,
{
    let mut i: usize = 0;
    proof {
        assert(args@.subrange(0, args@.len() as int) =~= args@);
    }
    while i < args.len()
        invariant
            i <= args@.len(),
            lookup(args@, name@) == lookup(args@.subrange(i as int, args@.len() as int), name@),
        decreases args@.len() - i,
    {
        proof {
            let rest = args@.subrange(i as int, args@.len() as int);
            assert(rest.drop_first() =~= args@.subrange(i + 1, args@.len() as int));
            assert(rest[0] == args@[i as int]);
        }
        if args[i].0.eq(name) {
            return Some(&args[i].1);
        }
        i = i + 1;
    }
    None
}

/// Renders a template with the supplied arguments.
pub fn render(segments: &Vec<Segment>, args: &Vec<(String, String)>) -> (r: String)
    ensures
        r@ == render_spec(segments@, args@),
{
    let mut out = String::new();
    let mut i: usize = 0;
    while i < segments.len()
        invariant
            i <= segments@.len(),
            out@ == render_spec(segments@.subrange(0, i as int), args@),
        decreases segments@.len() - i,
    {
        proof {
            let next = segments@.subrange(0, i + 1);
            assert(next.drop_last() =~= segments@.subrange(0, i as int));
            assert(next.last() == segments@[i as int]);
        }
        match &segments[i] {
            Segment::Text(t) => out.append(t.as_str()),
            Segment::Arg(n) => match find_argument(args, n) {
                Some(v) => out.append(v.as_str()),
                None => {},
            },
        }
        proof {
            assert(out@ =~= render_spec(segments@.subrange(0, i + 1), args@));
        }
        i = i + 1;
    }
    proof {
        assert(segments@.subrange(0, segments@.len() as int) =~= segments@);
    }
    out
}

/// The position of the first declared argument that is required and was
/// not supplied, if any.
pub fn first_missing(declared: &Vec<PromptArgument>, args: &Vec<(String, String)>) -> (r: Option<
    usize,
>)
    ensures
        r is None ==> forall|k: int| 0 <= k < declared@.len() ==> !is_missing(#[trigger] declared@[k], args@),
        r is Some ==> r->Some_0 < declared@.len() && is_missing(declared@[r->Some_0 as int], args@)
            && forall|k: int| 0 <= k < r->Some_0 ==> !is_missing(#[trigger] declared@[k], args@),
{
    let mut i: usize = 0;
    while i < declared.len()
        invariant
            i <= declared@.len(),
            forall|k: int| 0 <= k < i ==> !is_missing(#[trigger] declared@[k], args@),
        decreases declared@.len() - i,
    {
        let a = &declared[i];
        if a.required {
            match find_argument(args, &a.name) {
                None => return Some(i),
                Some(_) => {},
            }
        }
        i = i + 1;
    }
    None
}

/// The message for a required argument that was not supplied.
pub fn missing_argument_message(name: &String) -> (r: String)
    ensures
        r@ == missing_argument_text(name@),
{
    join("Missing required argument: ", name.as_str())
}

/// What a prompt renders to, given its description and message.
pub open spec fn prompt_result(description: String, message: Seq<char>, r: PromptExecutionResult) -> bool {
    r.description == description && r.message@ == message
}

impl PromptEntry {
    /// Checks the supplied arguments against the declared ones and starts
    /// rendering: the first required argument without a value fails with a
    /// message naming it; otherwise a static or template message is returned
    /// at once, and a remote one is to be fetched.
    pub fn execute(&self, args: &Vec<(String, String)>) -> (r: Step<PromptExecutionResult>)
        ensures
            (exists|k: int| 0 <= k < self.descriptor.arguments@.len()
                && is_missing(#[trigger] self.descriptor.arguments@[k], args@)) <==> r is Failed,
            r is Failed ==> exists|k: int| 0 <= k < self.descriptor.arguments@.len()
                && is_missing(#[trigger] self.descriptor.arguments@[k], args@)
                && r->Failed_0@ == missing_argument_text(self.descriptor.arguments@[k].name@),
            !(r is Failed) ==> match self.source {
                PromptSource::Static { text } => r is Ready && prompt_result(
                    self.descriptor.description,
                    text@,
                    r->Ready_0,
                ),
                PromptSource::Template { segments } => r is Ready && prompt_result(
                    self.descriptor.description,
                    render_spec(segments@, args@),
                    r->Ready_0,
                ),
                PromptSource::Http { url } => r is Fetch && r->url == url,
            },
    {
        match first_missing(&self.descriptor.arguments, args) {
            Some(k) => {
                return Step::Failed(missing_argument_message(&self.descriptor.arguments[k].name));
            },
            None => {},
        }
        let description = self.descriptor.description.clone();
        match &self.source {
            PromptSource::Static { text } => Step::Ready(
                PromptExecutionResult { description, message: text.clone() },
            ),
            PromptSource::Template { segments } => Step::Ready(
                PromptExecutionResult { description, message: render(segments, args) },
            ),
            PromptSource::Http { url } => Step::Fetch { url: url.clone() },
        }
    }
}

/// Describes a failed fetch of a prompt's message from `url`.
pub open spec fn prompt_fetch_error_text(name: Seq<char>, url: Seq<char>, e: FetchError) -> Seq<char> {
    "Failed to load prompt "@ + name + " from "@ + url + ": "@ + fetch_cause_text(e)
}

/// Wraps the outcome of fetching a prompt's message from `url`: the body
/// becomes the message under the prompt's description.
pub fn finish_prompt_fetch(
    descriptor: &PromptDescriptor,
    url: &String,
    fetched: Result<String, FetchError>,
) -> (r: Result<PromptExecutionResult, String>)
    ensures
        fetched is Ok <==> r is Ok,
        fetched is Ok ==> prompt_result(descriptor.description, fetched->Ok_0@, r->Ok_0),
        fetched is Err ==> r->Err_0@ == prompt_fetch_error_text(
            descriptor.name@,
            url@,
            fetched->Err_0,
        ),
{
    match fetched {
        Ok(body) => Ok(PromptExecutionResult { description: descriptor.description.clone(), message: body }),
        Err(e) => {
            let mut s = String::from_str("Failed to load prompt ");
            s.append(descriptor.name.as_str());
            s.append(" from ");
            s.append(url.as_str());
            s.append(": ");
            let cause = fetch_cause_message(&e);
            s.append(cause.as_str());
            proof {
                assert(s@ =~= prompt_fetch_error_text(descriptor.name@, url@, e));
            }
            Err(s)
        },
    }
}

} // verus!
