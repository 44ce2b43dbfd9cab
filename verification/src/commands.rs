//! What the registry tool reads from its command line: the mapping of a
//! namespace to a source registry, written `<namespace>@<url>=<namespace>`.

use vstd::prelude::*;
use vstd::string::{StrSliceExecFns, StringExecFns};
use crate::text::is_namespace;

verus! {

/// `PackageName::is_valid_namespace` of `warg-protocol`: it accepts exactly
/// the namespaces, which are the kebab-case words of `wasmparser` without
/// upper-case letters.
#[verifier::external_body]
fn namespace_is_valid(text: &str) -> (ok: bool)
    ensures
        ok == is_namespace(text@),
{
    warg_protocol::registry::PackageName::is_valid_namespace(text)
}

/// The position of the first `c` in the text; the length of the text where
/// it holds none.
pub open spec fn index_of(text: Seq<char>, c: char) -> int
    decreases text.len(),
{
    if text.len() == 0 {
        0
    } else if text[0] == c {
        0
    } else {
        1 + index_of(text.drop_first(), c)
    }
}

/// The position of the last `c` in the text; -1 where it holds none.
pub open spec fn last_index_of(text: Seq<char>, c: char) -> int
    decreases text.len(),
{
    if text.len() == 0 {
        -1
    } else if text.last() == c {
        text.len() - 1
    } else {
        last_index_of(text.drop_last(), c)
    }
}

/// The mathematical value of a [`NamespaceMapping`].
pub ghost struct MappingModel {
    pub source_namespace: Seq<char>,
    pub source_registry: Seq<char>,
    pub target_namespace: Option<Seq<char>>,
}

/// What a text says as a namespace mapping, if it is one.
///
/// The source namespace ends at the first `@`. What follows is the source
/// registry, unless it holds a `=`: then the registry ends at the last `=`
/// and the target namespace follows it. Both namespaces must be valid.
pub open spec fn mapping_of(text: Seq<char>) -> Option<MappingModel> {
    let at = index_of(text, '@');
    if at >= text.len() {
        None
    } else {
        let source_namespace = text.take(at);
        let rest = text.skip(at + 1);
        let eq = last_index_of(rest, '=');
        if eq < 0 {
            if is_namespace(source_namespace) {
                Some(MappingModel { source_namespace, source_registry: rest, target_namespace: None })
            } else {
                None
            }
        } else {
            let target = rest.skip(eq + 1);
            if is_namespace(target) && is_namespace(source_namespace) {
                Some(
                    MappingModel {
                        source_namespace,
                        source_registry: rest.take(eq),
                        target_namespace: Some(target),
                    },
                )
            } else {
                None
            }
        }
    }
}

/// Mapping namespace from a source registry.
#[derive(Clone, Debug, PartialEq, Eq)]
pub struct NamespaceMapping {
    /// Source registry's namespace
    pub source_namespace: String,
    /// Source registry's URL, as it was written
    pub source_registry: String,
    /// If mapping to a different namespace, the target registry's namespace
    pub target_namespace: Option<String>,
}

impl View for NamespaceMapping {
    type V = MappingModel;

    open spec fn view(&self) -> MappingModel {
        MappingModel {
            source_namespace: self.source_namespace@,
            source_registry: self.source_registry@,
            target_namespace: match self.target_namespace {
                Some(t) => Some(t@),
                None => None,
            },
        }
    }
}

/// A text that is no namespace mapping.
#[derive(Clone, Debug, PartialEq, Eq)]
pub struct InvalidNamespaceMapping {
    pub mapping: String,
}

/// What the error says of a text that is no namespace mapping.
pub open spec fn mapping_message(mapping: Seq<char>) -> Seq<char> {
    "invalid namespace mapping `"@ + mapping
        + "`: expected format is `<namespace>@<url>=<namespace>`"@
}

impl InvalidNamespaceMapping {
    /// The message of the error: the text that was given, and the format
    /// that was expected.
    pub fn message(&self) -> (text: String)
        ensures
            text@ == mapping_message(self.mapping@),
    {
        let mut text = "invalid namespace mapping `".to_owned();
        text.append(self.mapping.as_str());
        text.append("`: expected format is `<namespace>@<url>=<namespace>`");
        text
    }
}

/// The position of the first `c` in the text; its length where it holds
/// none.
pub fn find_first(text: &str, c: char) -> (i: usize)
    ensures
        i == index_of(text@, c),
        0 <= i <= text@.len(),
{
    let n = text.unicode_len();
    let mut i: usize = 0;
    while i < n && text.get_char(i) != c
        invariant
            n == text@.len(),
            0 <= i <= n,
            forall|j: int| 0 <= j < i ==> text@[j] != c,
        decreases n - i,
    {
        i += 1;
    }
    proof {
        lemma_index_of(text@, c, i as int);
    }
    i
}

/// The position of the last `c` in the text, if it holds one.
pub fn find_last(text: &str, c: char) -> (r: Option<usize>)
    ensures
        match r {
            Some(i) => i == last_index_of(text@, c) && i < text@.len(),
            None => last_index_of(text@, c) == -1,
        },
{
    let n = text.unicode_len();
    let mut i: usize = n;
    while i > 0 && text.get_char(i - 1) != c
        invariant
            n == text@.len(),
            0 <= i <= n,
            forall|j: int| i <= j < n ==> text@[j] != c,
        decreases i,
    {
        i -= 1;
    }
    proof {
        lemma_last_index_of(text@, c, i as int - 1);
    }
    if i == 0 {
        None
    } else {
        Some(i - 1)
    }
}

/// A position before which the text holds no `c`, and which holds one or
/// is the end of the text, is the position of the first `c`.
pub proof fn lemma_index_of(text: Seq<char>, c: char, i: int)
    requires
        0 <= i <= text.len(),
        forall|j: int| 0 <= j < i ==> text[j] != c,
        i < text.len() ==> text[i] == c,
    ensures
        index_of(text, c) == i,
    decreases text.len(),
{
    if text.len() > 0 && i > 0 {
        let rest = text.drop_first();
        assert(forall|j: int| 0 <= j < i - 1 ==> rest[j] == text[j + 1]);
        lemma_index_of(rest, c, i - 1);
    }
}

/// A position after which the text holds no `c`, and which holds one or is
/// -1, is the position of the last `c`.
pub proof fn lemma_last_index_of(text: Seq<char>, c: char, i: int)
    requires
        -1 <= i < text.len(),
        forall|j: int| i < j < text.len() ==> text[j] != c,
        i >= 0 ==> text[i] == c,
    ensures
        last_index_of(text, c) == i,
    decreases text.len(),
{
    if text.len() > 0 && i < text.len() - 1 {
        let rest = text.drop_last();
        assert(forall|j: int| 0 <= j < rest.len() ==> rest[j] == text[j]);
        lemma_last_index_of(rest, c, i);
    }
}

impl NamespaceMapping {
    /// Creates a new namespace mapping from a source registry.
    ///
    /// Succeeds exactly on the texts that are a namespace mapping, with the
    /// parts that the text says; the error holds the text that was given.
    /// The registry is kept as it was written.
    pub fn new(s: String) -> (r: Result<Self, InvalidNamespaceMapping>)
        ensures
            match mapping_of(s@) {
                Some(model) => r matches Ok(mapping) && mapping@ == model,
                None => r matches Err(e) && e.mapping@ == s@,
            },
    {
        let text = s.as_str();
        let n = text.unicode_len();
        let at = find_first(text, '@');
        if at >= n {
            return Err(InvalidNamespaceMapping { mapping: s });
        }
        let source_namespace = text.substring_char(0, at);
        let rest = text.substring_char(at + 1, n);
        proof {
            assert(source_namespace@ == s@.take(at as int));
            assert(rest@ == s@.skip(at + 1));
        }
        let (source_registry, target_namespace) = match find_last(rest, '=') {
            Some(eq) => {
                let length = rest.unicode_len();
                let target = rest.substring_char(eq + 1, length);
                let registry = rest.substring_char(0, eq);
                proof {
                    assert(target@ == rest@.skip(eq + 1));
                    assert(registry@ == rest@.take(eq as int));
                }
                if !namespace_is_valid(target) {
                    return Err(InvalidNamespaceMapping { mapping: s });
                }
                (registry, Some(target.to_owned()))
            },
            None => (rest, None),
        };
        if namespace_is_valid(source_namespace) {
            Ok(
                NamespaceMapping {
                    source_namespace: source_namespace.to_owned(),
                    source_registry: source_registry.to_owned(),
                    target_namespace,
                },
            )
        } else {
            Err(InvalidNamespaceMapping { mapping: s })
        }
    }
}

} // verus!
