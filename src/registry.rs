//! The catalog of resources and prompts, filled at startup and read-only
//! afterwards.
use vstd::prelude::*;
use crate::handler::{PromptEntry, PromptSource, ResourceEntry, ResourceSource};
use crate::model::{same_prompt, PromptDescriptor, ResourceDescriptor};
use crate::text::{join, starts_with};

verus! {

/// The scheme every resource URI starts with.
pub open spec fn resource_scheme() -> Seq<char> {
    "resource://"@
}

/// What a registry holds, in registration order.
pub struct RegistryView {
    pub resources: Seq<ResourceEntry>,
    pub prompts: Seq<PromptEntry>,
}

/// Resource URIs carry the scheme and are pairwise distinct; prompt names
/// are pairwise distinct.
pub open spec fn registry_wf(v: RegistryView) -> bool {
    &&& forall|i: int|
        0 <= i < v.resources.len() ==> resource_scheme().is_prefix_of(
            #[trigger] v.resources[i].descriptor.uri@,
        )
    &&& forall|i: int, j: int|
        0 <= i < v.resources.len() && 0 <= j < v.resources.len() && i != j
            ==> #[trigger] v.resources[i].descriptor.uri@ != #[trigger] v.resources[j].descriptor.uri@
    &&& forall|i: int, j: int|
        0 <= i < v.prompts.len() && 0 <= j < v.prompts.len() && i != j
            ==> #[trigger] v.prompts[i].descriptor.name@ != #[trigger] v.prompts[j].descriptor.name@
}

/// Some registered resource has URI `uri`.
pub open spec fn has_uri(v: RegistryView, uri: Seq<char>) -> bool {
    exists|i: int| 0 <= i < v.resources.len() && #[trigger] v.resources[i].descriptor.uri@ == uri
}

/// Some registered prompt is named `name`.
pub open spec fn has_prompt(v: RegistryView, name: Seq<char>) -> bool {
    exists|i: int| 0 <= i < v.prompts.len() && #[trigger] v.prompts[i].descriptor.name@ == name
}

/// Why an entry could not be added.
#[derive(Debug)]
pub enum RegistryError {
    /// The URI does not start with `resource://`.
    InvalidUri(String),
    /// A resource with this URI is already registered.
    DuplicateUri(String),
    /// A prompt with this name is already registered.
    DuplicateName(String),
}

impl RegistryError {
    /// A readable description of the error.
    pub fn message(&self) -> (r: String)
        ensures
            r@ == match self {
                RegistryError::InvalidUri(u) => "Resource URI must start with resource://: "@ + u@,
                RegistryError::DuplicateUri(u) => "Duplicate resource URI: "@ + u@,
                RegistryError::DuplicateName(n) => "Duplicate prompt name: "@ + n@,
            },
    {
        match self {
            RegistryError::InvalidUri(u) => join("Resource URI must start with resource://: ", u.as_str()),
            RegistryError::DuplicateUri(u) => join("Duplicate resource URI: ", u.as_str()),
            RegistryError::DuplicateName(n) => join("Duplicate prompt name: ", n.as_str()),
        }
    }
}

/// Registered resources and prompts.
pub struct Registry {
    resources: Vec<ResourceEntry>,
    prompts: Vec<PromptEntry>,
}

impl View for Registry {
    type V = RegistryView;

    closed spec fn view(&self) -> RegistryView {
        RegistryView { resources: self.resources@, prompts: self.prompts@ }
    }
}

impl Registry {
    /// The registry's invariant.
    pub open spec fn wf(&self) -> bool {
        registry_wf(self@)
    }

    /// An empty registry.
    pub fn new() -> (r: Registry)
        ensures
            r.wf(),
            r@.resources == Seq::<ResourceEntry>::empty(),
            r@.prompts == Seq::<PromptEntry>::empty(),
    {
        Registry { resources: Vec::new(), prompts: Vec::new() }
    }

    /// The position of the resource registered under `uri`.
    pub fn find_resource(&self, uri: &String) -> (r: Option<usize>)
        ensures
            r is None <==> !has_uri(self@, uri@),
            r is Some ==> r->Some_0 < self@.resources.len()
                && self@.resources[r->Some_0 as int].descriptor.uri@ == uri@,
    {
        let mut i: usize = 0;
        while i < self.resources.len()
            invariant
                i <= self.resources@.len(),
                forall|k: int| 0 <= k < i ==> #[trigger] self.resources@[k].descriptor.uri@ != uri@,
            decreases self.resources@.len() - i,
        {
            if self.resources[i].descriptor.uri.eq(uri) {
                return Some(i);
            }
            i = i + 1;
        }
        None
    }

    /// The position of the prompt registered under `name`.
    pub fn find_prompt(&self, name: &String) -> (r: Option<usize>)
        ensures
            r is None <==> !has_prompt(self@, name@),
            r is Some ==> r->Some_0 < self@.prompts.len()
                && self@.prompts[r->Some_0 as int].descriptor.name@ == name@,
    {
        let mut i: usize = 0;
        while i < self.prompts.len()
            invariant
                i <= self.prompts@.len(),
                forall|k: int| 0 <= k < i ==> #[trigger] self.prompts@[k].descriptor.name@ != name@,
            decreases self.prompts@.len() - i,
        {
            if self.prompts[i].descriptor.name.eq(name) {
                return Some(i);
            }
            i = i + 1;
        }
        None
    }

    /// Registers a resource. Fails, leaving the registry unchanged, where
    /// the URI lacks the `resource://` scheme or is already registered.
    pub fn add_resource(&mut self, descriptor: ResourceDescriptor, source: ResourceSource) -> (r: Result<(), RegistryError>)
        requires
            old(self).wf(),
        ensures
            final(self).wf(),
            !resource_scheme().is_prefix_of(descriptor.uri@) ==> r == Err::<(), RegistryError>(RegistryError::InvalidUri(descriptor.uri)),
            resource_scheme().is_prefix_of(descriptor.uri@) && has_uri(old(self)@, descriptor.uri@)
                ==> r == Err::<(), RegistryError>(RegistryError::DuplicateUri(descriptor.uri)),
            r is Err ==> final(self)@ == old(self)@,
            r is Ok <==> resource_scheme().is_prefix_of(descriptor.uri@) && !has_uri(old(self)@, descriptor.uri@),
            r is Ok ==> final(self)@.resources == old(self)@.resources.push(ResourceEntry { descriptor, source })
                && final(self)@.prompts == old(self)@.prompts,
    {
        if !starts_with(descriptor.uri.as_str(), "resource://") {
            return Err(RegistryError::InvalidUri(descriptor.uri));
        }
        match self.find_resource(&descriptor.uri) {
            Some(_) => {
                return Err(RegistryError::DuplicateUri(descriptor.uri));
            },
            None => {},
        }
        self.resources.push(ResourceEntry { descriptor, source });
        proof {
            let v = self@;
            assert forall|i: int, j: int|
                0 <= i < v.resources.len() && 0 <= j < v.resources.len() && i != j
                implies #[trigger] v.resources[i].descriptor.uri@ != #[trigger] v.resources[j].descriptor.uri@ by {
                if i < old(self)@.resources.len() && j < old(self)@.resources.len() {
                    assert(v.resources[i] == old(self)@.resources[i]);
                    assert(v.resources[j] == old(self)@.resources[j]);
                } else if i < old(self)@.resources.len() {
                    assert(v.resources[i] == old(self)@.resources[i]);
                } else {
                    assert(v.resources[j] == old(self)@.resources[j]);
                }
            }
            assert forall|i: int| 0 <= i < v.resources.len() implies resource_scheme().is_prefix_of(
                #[trigger] v.resources[i].descriptor.uri@,
            ) by {
                if i < old(self)@.resources.len() {
                    assert(v.resources[i] == old(self)@.resources[i]);
                }
            }
        }
        Ok(())
    }

    /// Registers a prompt. Fails, leaving the registry unchanged, where the
    /// name is already registered.
    pub fn add_prompt(&mut self, descriptor: PromptDescriptor, source: PromptSource) -> (r: Result<(), RegistryError>)
        requires
            old(self).wf(),
        ensures
            final(self).wf(),
            has_prompt(old(self)@, descriptor.name@) ==> r == Err::<(), RegistryError>(RegistryError::DuplicateName(descriptor.name)),
            r is Err ==> final(self)@ == old(self)@,
            r is Ok <==> !has_prompt(old(self)@, descriptor.name@),
            r is Ok ==> final(self)@.prompts == old(self)@.prompts.push(PromptEntry { descriptor, source })
                && final(self)@.resources == old(self)@.resources,
    {
        match self.find_prompt(&descriptor.name) {
            Some(_) => {
                return Err(RegistryError::DuplicateName(descriptor.name));
            },
            None => {},
        }
        self.prompts.push(PromptEntry { descriptor, source });
        proof {
            let v = self@;
            assert forall|i: int, j: int|
                0 <= i < v.prompts.len() && 0 <= j < v.prompts.len() && i != j
                implies #[trigger] v.prompts[i].descriptor.name@ != #[trigger] v.prompts[j].descriptor.name@ by {
                if i < old(self)@.prompts.len() && j < old(self)@.prompts.len() {
                    assert(v.prompts[i] == old(self)@.prompts[i]);
                    assert(v.prompts[j] == old(self)@.prompts[j]);
                } else if i < old(self)@.prompts.len() {
                    assert(v.prompts[i] == old(self)@.prompts[i]);
                } else {
                    assert(v.prompts[j] == old(self)@.prompts[j]);
                }
            }
        }
        Ok(())
    }

    /// The entry at position `i`.
    pub fn resource_at(&self, i: usize) -> (r: &ResourceEntry)
        requires
            i < self@.resources.len(),
        ensures
            *r == self@.resources[i as int],
    {
        &self.resources[i]
    }

    /// The prompt at position `i`.
    pub fn prompt_at(&self, i: usize) -> (r: &PromptEntry)
        requires
            i < self@.prompts.len(),
        ensures
            *r == self@.prompts[i as int],
    {
        &self.prompts[i]
    }

    /// The resource registered under `uri`.
    pub fn get_resource(&self, uri: &String) -> (r: Option<&ResourceEntry>)
        ensures
            r is None <==> !has_uri(self@, uri@),
            r is Some ==> exists|i: int| 0 <= i < self@.resources.len() && *r->Some_0 == #[trigger] self@.resources[i]
                && self@.resources[i].descriptor.uri@ == uri@,
    {
        match self.find_resource(uri) {
            Some(i) => Some(&self.resources[i]),
            None => None,
        }
    }

    /// The prompt registered under `name`.
    pub fn get_prompt(&self, name: &String) -> (r: Option<&PromptEntry>)
        ensures
            r is None <==> !has_prompt(self@, name@),
            r is Some ==> exists|i: int| 0 <= i < self@.prompts.len() && *r->Some_0 == #[trigger] self@.prompts[i]
                && self@.prompts[i].descriptor.name@ == name@,
    {
        match self.find_prompt(name) {
            Some(i) => Some(&self.prompts[i]),
            None => None,
        }
    }

    /// The descriptors of all resources, in registration order.
    pub fn list_resources(&self) -> (r: Vec<ResourceDescriptor>)
        ensures
            r@.len() == self@.resources.len(),
            forall|i: int| 0 <= i < r@.len() ==> #[trigger] r@[i] == self@.resources[i].descriptor,
    {
        let mut r: Vec<ResourceDescriptor> = Vec::new();
        let mut i: usize = 0;
        while i < self.resources.len()
            invariant
                i <= self.resources@.len(),
                r@.len() == i,
                forall|k: int| 0 <= k < i ==> #[trigger] r@[k] == self.resources@[k].descriptor,
            decreases self.resources@.len() - i,
        {
            r.push(self.resources[i].descriptor.clone());
            i = i + 1;
        }
        r
    }

    /// The descriptors of all prompts, in registration order.
    pub fn list_prompts(&self) -> (r: Vec<PromptDescriptor>)
        ensures
            r@.len() == self@.prompts.len(),
            forall|i: int| 0 <= i < r@.len() ==> same_prompt(#[trigger] r@[i], self@.prompts[i].descriptor),
    {
        let mut r: Vec<PromptDescriptor> = Vec::new();
        let mut i: usize = 0;
        while i < self.prompts.len()
            invariant
                i <= self.prompts@.len(),
                r@.len() == i,
                forall|k: int| 0 <= k < i ==> same_prompt(#[trigger] r@[k], self.prompts@[k].descriptor),
            decreases self.prompts@.len() - i,
        {
            r.push(self.prompts[i].descriptor.duplicate());
            i = i + 1;
        }
        r
    }
}

} // verus!
