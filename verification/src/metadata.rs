//! Template metadata: which templates are loaded and whether they are reloaded
//! on change, and the request guard that hands that metadata to handlers.
use vstd::prelude::*;

verus! {

/// The status code with which the metadata guard fails when the template
/// context is missing (`500 Internal Server Error`).
pub const INTERNAL_SERVER_ERROR: u16 = 500;

/// The state that template rendering keeps: the names of the loaded templates
/// and whether templates are reloaded when they change on disk.
pub struct ContextManager {
    templates: Vec<String>,
    reloading: bool,
}

impl ContextManager {
    /// The names of the loaded templates.
    pub closed spec fn template_names(&self) -> Set<Seq<char>> {
        self.templates@.map_values(|t: String| t@).to_set()
    }

    /// Whether template reloading is enabled.
    pub closed spec fn reloads(&self) -> bool {
        self.reloading
    }

    /// A context with the templates named in `templates` loaded.
    pub fn new(templates: Vec<String>, reloading: bool) -> (cm: ContextManager)
        ensures
            cm.template_names() == templates@.map_values(|t: String| t@).to_set(),
            cm.reloads() == reloading,
    {
        ContextManager { templates, reloading }
    }

    /// Returns `true` if template reloading is enabled.
    pub fn is_reloading(&self) -> (b: bool)
        ensures
            b == self.reloads(),
    {
        self.reloading
    }

    /// Returns `true` if a template named `name` is loaded.
    pub fn has_template(&self, name: &str) -> (b: bool)
        ensures
            b == self.template_names().contains(name@),
    {
        let wanted: String = name.to_owned();
        let ghost names = self.templates@.map_values(|t: String| t@);
        let mut i: usize = 0;
        while i < self.templates.len()
            invariant
                i <= self.templates@.len(),
                wanted@ == name@,
                names == self.templates@.map_values(|t: String| t@),
                forall|j: int| 0 <= j < i ==> names[j] != name@,
            decreases self.templates@.len() - i,
        {
            if self.templates[i] == wanted {
                assert(names[i as int] == name@);
                assert(names.to_set().contains(names[i as int]));
                return true;
            }
            i = i + 1;
        }
        proof {
            if names.to_set().contains(name@) {
                let k = choose|k: int| 0 <= k < names.len() && names[k] == name@;
                assert(names[k] == name@);
            }
        }
        false
    }
}

/// Request guard for dynamically querying template metadata.
pub struct Metadata<'a>(&'a ContextManager);

/// What the metadata guard answers a request with.
pub enum MetadataOutcome<'r> {
    /// The template context is present: the guard succeeds with its metadata.
    Success(Metadata<'r>),
    /// The template context is missing: the guard fails with this status code.
    Error(u16),
}

/// Whether launching the server is aborted, given the managed template state.
pub open spec fn aborts_launch(state: Option<&ContextManager>) -> bool {
    state is None
}

impl<'a> Metadata<'a> {
    /// The template context that this metadata reads.
    pub closed spec fn context(&self) -> ContextManager {
        *self.0
    }

    /// The answer of the metadata guard, given the managed template state.
    pub closed spec fn spec_from_request(state: Option<&'a ContextManager>) -> MetadataOutcome<'a> {
        match state {
            Some(cm) => MetadataOutcome::Success(Metadata(cm)),
            None => MetadataOutcome::Error(INTERNAL_SERVER_ERROR),
        }
    }

    /// Returns `true` if the template with the given `name` is currently loaded.
    pub fn contains_template(&self, name: &str) -> (b: bool)
        ensures
            b == self.context().template_names().contains(name@),
    {
        self.0.has_template(name)
    }

    /// Returns `true` if template reloading is enabled.
    pub fn reloading(&self) -> (b: bool)
        ensures
            b == self.context().reloads(),
    {
        self.0.is_reloading()
    }

    /// Launch is aborted when no template context is managed: the template
    /// fairing was not attached.
    pub fn abort(state: Option<&ContextManager>) -> (b: bool)
        ensures
            b == aborts_launch(state),
    {
        state.is_none()
    }

    /// Retrieves the template metadata from the managed state. Without a
    /// template context the guard fails with `500 Internal Server Error`.
    pub fn from_request(state: Option<&'a ContextManager>) -> (o: MetadataOutcome<'a>)
        ensures
            o == Self::spec_from_request(state),
            match o {
                MetadataOutcome::Success(m) => state == Some(&m.context()),
                MetadataOutcome::Error(code) => state is None && code == INTERNAL_SERVER_ERROR,
            },
    {
        match state {
            Some(cm) => MetadataOutcome::Success(Metadata(cm)),
            None => MetadataOutcome::Error(INTERNAL_SERVER_ERROR),
        }
    }
}

/// A server whose launch the metadata sentinel lets through never answers a
/// request for template metadata with an error, and a server whose launch it
/// aborts would answer every such request with `500 Internal Server Error`.
pub proof fn lemma_sentinel_guards_requests<'a>(state: Option<&'a ContextManager>)
    ensures
        !aborts_launch(state) <==> Metadata::<'a>::spec_from_request(state) is Success,
        aborts_launch(state) ==> Metadata::<'a>::spec_from_request(state)
            == MetadataOutcome::<'a>::Error(INTERNAL_SERVER_ERROR),
{
}

} // verus!
