//! Naming of the rendezvous endpoint.
//!
//! A host and its injectors find each other by a label. The label is mapped to a
//! name in one shared directory, verbatim: nothing is escaped, so a label with
//! path separators names whatever path results. Callers supply safe labels.

use vstd::prelude::*;

verus! {

/// The directory that holds every endpoint, with its trailing separator.
pub open spec fn endpoint_dir() -> Seq<char> {
    seq!['/', 't', 'm', 'p', '/']
}

/// The endpoint name that belongs to `label`.
pub open spec fn socket_path_of(label: Seq<char>) -> Seq<char> {
    endpoint_dir() + label
}

/// The label that an endpoint name was derived from.
pub open spec fn label_of(path: Seq<char>) -> Seq<char> {
    path.subrange(endpoint_dir().len() as int, path.len() as int)
}

/// Maps a label to the name of its endpoint.
pub fn socket_path(label: &str) -> (path: String)
    ensures
        path@ == socket_path_of(label@),
{
    proof {
        reveal_strlit("/tmp/");
        assert("/tmp/"@ =~= endpoint_dir());
    }
    String::from_str("/tmp/").concat(label)
}

/// The label can be read back from the name: the name is the directory followed
/// by the label, unchanged.
pub proof fn lemma_label_kept_verbatim(label: Seq<char>)
    ensures
        socket_path_of(label).len() == endpoint_dir().len() + label.len(),
        socket_path_of(label).subrange(0, endpoint_dir().len() as int) == endpoint_dir(),
        label_of(socket_path_of(label)) == label,
{
}

/// Two labels share an endpoint exactly when they are the same label, so a host
/// and an injector meet if and only if they agree on the label.
pub proof fn lemma_same_endpoint_same_label(a: Seq<char>, b: Seq<char>)
    ensures
        socket_path_of(a) == socket_path_of(b) <==> a == b,
{
    lemma_label_kept_verbatim(a);
    lemma_label_kept_verbatim(b);
}

} // verus!
