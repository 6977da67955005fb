use vstd::prelude::*;
use vstd::string::StringExecFns;

verus! {

use crate::values::StrMap;

/// A notification template.
///
/// A template consists of named sub-templates, giving each service latitude
/// in how it lays a notification out.  The provided chat service expects a
/// "primary" and a "secondary" sub-template: the primary one creates or
/// updates a detailed channel message, the secondary one a shorter message in
/// the thread under it.
pub type Template = StrMap<String>;

/// Failure to obtain a template.
#[derive(Debug, PartialEq)]
pub enum TemplateError {
    /// The template was not found.
    NotFound,
    /// The stored entry does not have the expected shape of a template
    /// (a name-to-text mapping).
    InvalidFormat(String),
    /// Any other error during retrieval, such as failing to reach the store.
    GenericError(String),
}

/// The human-readable text of a template error.
pub open spec fn template_error_text(e: TemplateError) -> Seq<char> {
    match e {
        TemplateError::NotFound => "Template not found"@,
        TemplateError::InvalidFormat(s) => "Invalid template format: "@ + s@,
        TemplateError::GenericError(s) => s@,
    }
}

impl TemplateError {
    /// Describes the error in one line of text.
    pub fn message(&self) -> (r: String)
        ensures
            r@ == template_error_text(*self),
    {
        match self {
            TemplateError::NotFound => "Template not found".to_owned(),
            TemplateError::InvalidFormat(s) => {
                let mut m = "Invalid template format: ".to_owned();
                m.append(s.as_str());
                m
            },
            TemplateError::GenericError(s) => s.clone(),
        }
    }
}

/// Fetches raw templates, as lists of sub-template name and text pairs, from
/// external storage.  Implementations live outside this crate — a Kubernetes
/// ConfigMap client, or a test double — so nothing is assumed about them
/// here: the cache states what holds of its own state whatever an
/// implementation returns.
pub trait TemplateRegistry {
    /// Retrieves the template stored under `name`.
    fn get(&self, name: &str) -> Result<Vec<(String, String)>, TemplateError>;
}

/// How one retrieval may change the cache, and what it returns.
///
/// A name already cached is answered from the cache, unchanged; a name not
/// yet cached is answered by the registry, and only a successful answer is
/// stored.  Either way, a successful retrieval leaves the returned mapping
/// cached under the name.
pub open spec fn cache_get_transition(
    pre: Map<Seq<char>, Map<Seq<char>, String>>,
    post: Map<Seq<char>, Map<Seq<char>, String>>,
    name: Seq<char>,
    r: Result<Template, TemplateError>,
) -> bool {
    &&& (pre.contains_key(name) ==> post == pre && (r matches Ok(t) && t.wf() && t@ == pre[name]))
    &&& (!pre.contains_key(name) ==> match r {
        Ok(t) => t.wf() && post == pre.insert(name, t@),
        Err(_) => post == pre,
    })
    &&& (r matches Ok(t) ==> post.contains_key(name) && post[name] == t@)
}

/// Memoizes templates for the lifetime of the process.
///
/// Templates are treated as immutable for a run, so each is fetched at most
/// once per name and the stored value never changes afterwards.
pub struct TemplateCache {
    cache: StrMap<Template>,
}

impl View for TemplateCache {
    type V = Map<Seq<char>, Map<Seq<char>, String>>;

    /// The cache seen as a map from template name to sub-template mapping.
    closed spec fn view(&self) -> Map<Seq<char>, Map<Seq<char>, String>> {
        Map::new(
            |k: Seq<char>| self.cache@.contains_key(k),
            |k: Seq<char>| self.cache@[k]@,
        )
    }
}

impl TemplateCache {
    /// The stored association list and every stored template satisfy their
    /// representation invariant.
    pub closed spec fn wf(&self) -> bool {
        self.cache.wf() && forall|k: Seq<char>|
            self.cache@.contains_key(k) ==> (#[trigger] self.cache@[k]).wf()
    }

    pub fn new() -> (r: Self)
        ensures
            r.wf(),
            r@ == Map::<Seq<char>, Map<Seq<char>, String>>::empty(),
    {
        let r = TemplateCache { cache: StrMap::new() };
        proof {
            assert(r@ =~= Map::<Seq<char>, Map<Seq<char>, String>>::empty());
        }
        r
    }

    /// Returns the template stored under `name`, fetching it from the
    /// registry on the first use of that name.
    ///
    /// Once a name is cached, later calls return the cached sub-template
    /// mapping unchanged and leave the cache as it is; the registry only
    /// decides the outcome for names that are not yet cached.
    pub fn get<R: TemplateRegistry>(&mut self, name: &str, registry: &R) -> (r: Result<
        Template,
        TemplateError,
    >)
        requires
            old(self).wf(),
        ensures
            final(self).wf(),
            cache_get_transition(old(self)@, final(self)@, name@, r),
    {
        match self.cache.get(name) {
            Some(t) => {
                let r = t.clone();
                proof {
                    assert(self@ =~= old(self)@);
                }
                Ok(r)
            },
            None => {
                match registry.get(name) {
                    Ok(pairs) => {
                        let t = Template::from_pairs(&pairs);
                        self.cache.insert(name, t.clone());
                        proof {
                            assert(final(self)@ =~= old(self)@.insert(name@, t@));
                        }
                        Ok(t)
                    },
                    Err(e) => {
                        proof {
                            assert(self@ =~= old(self)@);
                        }
                        Err(e)
                    },
                }
            },
        }
    }
}

/// Template memoization is idempotent: once a retrieval of a name has
/// succeeded, every later retrieval of that name succeeds with the
/// identical sub-template mapping and leaves the cache exactly as it was.
pub proof fn lemma_cache_idempotent(
    c0: Map<Seq<char>, Map<Seq<char>, String>>,
    c1: Map<Seq<char>, Map<Seq<char>, String>>,
    c2: Map<Seq<char>, Map<Seq<char>, String>>,
    name: Seq<char>,
    r1: Result<Template, TemplateError>,
    r2: Result<Template, TemplateError>,
)
    requires
        cache_get_transition(c0, c1, name, r1),
        r1 is Ok,
        cache_get_transition(c1, c2, name, r2),
    ensures
        c2 == c1,
        r2 matches Ok(t2) && r1 matches Ok(t1) && t2@ == t1@,
{
}

} // verus!
