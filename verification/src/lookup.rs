//! Picking what the user named out of what the issue tracker returned: the
//! issue whose identifier was searched for, and the workflow state of a name.

use vstd::prelude::*;

use crate::errors::IssuesError;
use crate::model::{text_or_default, text_or_empty, SearchHit, WorkflowStateNode};
use crate::text::{eq_ignore_ascii_case, str_eq_ignore_ascii_case};

verus! {

/// An ASCII hexadecimal digit.
pub open spec fn is_hex_digit(c: char) -> bool {
    ||| ('0' <= c && c <= '9')
    ||| ('a' <= c && c <= 'f')
    ||| ('A' <= c && c <= 'F')
}

/// Thirty-two hexadecimal digits in groups of 8, 4, 4, 4 and 12, joined by hyphens.
pub open spec fn is_hyphenated_uuid(s: Seq<char>) -> bool {
    &&& s.len() == 36
    &&& forall|i: int|
        0 <= i < 36 ==> if i == 8 || i == 13 || i == 18 || i == 23 {
            #[trigger] s[i] == '-'
        } else {
            is_hex_digit(s[i])
        }
}

/// The texts that `uuid::Uuid::parse_str` accepts: thirty-two hexadecimal
/// digits; the hyphenated form; the hyphenated form in braces; or the
/// hyphenated form behind a `urn:uuid:` prefix in any ASCII case.
pub open spec fn is_uuid_text(s: Seq<char>) -> bool {
    ||| (s.len() == 32 && forall|i: int| 0 <= i < 32 ==> is_hex_digit(#[trigger] s[i]))
    ||| is_hyphenated_uuid(s)
    ||| (s.len() == 38 && s[0] == '{' && s[37] == '}' && is_hyphenated_uuid(s.subrange(1, 37)))
    ||| (s.len() == 45 && eq_ignore_ascii_case(
        s.subrange(0, 9),
        seq!['u', 'r', 'n', ':', 'u', 'u', 'i', 'd', ':'],
    ) && is_hyphenated_uuid(s.subrange(9, 45)))
}

/// Calls `uuid::Uuid::parse_str` and tells whether it succeeded. The contract
/// restates the shapes that its parser accepts (32 bytes of hex digits; 36
/// bytes with hyphens at 8, 13, 18 and 23 and hex digits elsewhere; those 36
/// inside `{` and `}`; or those 36 behind a 9-byte `urn:uuid:` prefix compared
/// ignoring ASCII case). Every accepted byte is ASCII, so the bytes and the
/// characters of an accepted text coincide.
#[verifier::external_body]
fn uuid_parse_accepts(s: &str) -> (accepted: bool)
    ensures
        accepted == is_uuid_text(s@),
{
    uuid::Uuid::parse_str(s).is_ok()
}

/// Whether `s` reads as a UUID.
pub fn is_uuid(s: &str) -> (r: bool)
    ensures
        r == is_uuid_text(s@),
{
    uuid_parse_accepts(s)
}

/// Whether a search hit carries `identifier`, ignoring ASCII case.
pub open spec fn hit_matches(hit: SearchHit, identifier: Seq<char>) -> bool {
    match hit.identifier {
        Some(id) => eq_ignore_ascii_case(id@, identifier),
        None => false,
    }
}

/// `k` is the first position whose hit carries `identifier`.
pub open spec fn is_first_hit(hits: Seq<SearchHit>, identifier: Seq<char>, k: int) -> bool {
    &&& 0 <= k < hits.len()
    &&& hit_matches(hits[k], identifier)
    &&& forall|j: int| 0 <= j < k ==> !hit_matches(#[trigger] hits[j], identifier)
}

/// The id that the identifier search yields: that of the first hit carrying
/// `identifier`, if it has one.
pub open spec fn hit_lookup(hits: Seq<SearchHit>, identifier: Seq<char>) -> Option<Seq<char>> {
    if exists|k: int| is_first_hit(hits, identifier, k) {
        let k = choose|k: int| is_first_hit(hits, identifier, k);
        crate::command::opt_text(hits[k].id)
    } else {
        None
    }
}

/// At most one position is the first to carry an identifier.
pub proof fn lemma_first_hit_unique(hits: Seq<SearchHit>, identifier: Seq<char>, k1: int, k2: int)
    requires
        is_first_hit(hits, identifier, k1),
        is_first_hit(hits, identifier, k2),
    ensures
        k1 == k2,
{
    if k1 < k2 {
        assert(!hit_matches(hits[k1], identifier));
    } else if k2 < k1 {
        assert(!hit_matches(hits[k2], identifier));
    }
}

/// The id of the first search hit whose identifier is `identifier` (ignoring
/// ASCII case). The issue is not found when no hit carries it, or when the
/// first that does has no id.
pub fn find_hit_id(hits: &Vec<SearchHit>, identifier: &str) -> (r: Result<String, IssuesError>)
    ensures
        match r {
            Ok(id) => {
                &&& exists|k: int| is_first_hit(hits@, identifier@, k) && hits@[k].id == Some(id)
                &&& hit_lookup(hits@, identifier@) == Some(id@)
            },
            Err(e) => {
                &&& e is IssueNotFound
                &&& e->IssueNotFound_0@ == identifier@
                &&& forall|k: int| #![trigger hits@[k]]
                    is_first_hit(hits@, identifier@, k) ==> hits@[k].id.is_none()
                &&& hit_lookup(hits@, identifier@) is None
            },
        },
{
    let mut i: usize = 0;
    while i < hits.len()
        invariant
            i <= hits@.len(),
            forall|j: int| 0 <= j < i ==> !hit_matches(#[trigger] hits@[j], identifier@),
        decreases hits@.len() - i,
    {
        let hit = &hits[i];
        let matched = match &hit.identifier {
            Some(id) => str_eq_ignore_ascii_case(id.as_str(), identifier),
            None => false,
        };
        if matched {
            assert(is_first_hit(hits@, identifier@, i as int));
            proof {
                let k = choose|k: int| is_first_hit(hits@, identifier@, k);
                lemma_first_hit_unique(hits@, identifier@, k, i as int);
            }
            match &hit.id {
                Some(id) => {
                    return Ok(id.clone());
                },
                None => {
                    return Err(IssuesError::IssueNotFound(String::from_str(identifier)));
                },
            }
        }
        i = i + 1;
    }
    assert(!exists|k: int| is_first_hit(hits@, identifier@, k));
    Err(IssuesError::IssueNotFound(String::from_str(identifier)))
}

/// Whether a workflow state is named `name` (an absent name reads as empty),
/// ignoring ASCII case.
pub open spec fn state_matches(node: WorkflowStateNode, name: Seq<char>) -> bool {
    eq_ignore_ascii_case(text_or_empty(node.name), name)
}

/// `k` is the first position whose workflow state is named `name`.
pub open spec fn is_first_state(nodes: Seq<WorkflowStateNode>, name: Seq<char>, k: int) -> bool {
    &&& 0 <= k < nodes.len()
    &&& state_matches(nodes[k], name)
    &&& forall|j: int| 0 <= j < k ==> !state_matches(#[trigger] nodes[j], name)
}

/// The id that selecting the state named `name` yields: that of the first
/// state of that name (an absent id reads as empty), if any has the name.
pub open spec fn state_lookup(nodes: Seq<WorkflowStateNode>, name: Seq<char>) -> Option<Seq<char>> {
    if exists|k: int| is_first_state(nodes, name, k) {
        let k = choose|k: int| is_first_state(nodes, name, k);
        Some(text_or_empty(nodes[k].id))
    } else {
        None
    }
}

/// At most one position is the first to carry a state name.
pub proof fn lemma_first_state_unique(nodes: Seq<WorkflowStateNode>, name: Seq<char>, k1: int, k2: int)
    requires
        is_first_state(nodes, name, k1),
        is_first_state(nodes, name, k2),
    ensures
        k1 == k2,
{
    if k1 < k2 {
        assert(!state_matches(nodes[k1], name));
    } else if k2 < k1 {
        assert(!state_matches(nodes[k2], name));
    }
}

/// The names of the workflow states that have one, in order.
pub open spec fn present_names(nodes: Seq<WorkflowStateNode>) -> Seq<String>
    decreases nodes.len(),
{
    if nodes.len() == 0 {
        Seq::empty()
    } else {
        let rest = present_names(nodes.drop_last());
        match nodes.last().name {
            Some(n) => rest.push(n),
            None => rest,
        }
    }
}

/// The id of the team's workflow state named `state_name` (the first one
/// whose name matches ignoring ASCII case; an absent id reads as empty), or,
/// when none matches, the error that lists the names the team has.
pub fn select_state_id(nodes: &Vec<WorkflowStateNode>, state_name: &str) -> (r: Result<String, IssuesError>)
    ensures
        match r {
            Ok(id) => {
                &&& exists|k: int| is_first_state(nodes@, state_name@, k) && id@ == text_or_empty(nodes@[k].id)
                &&& state_lookup(nodes@, state_name@) == Some(id@)
            },
            Err(e) => {
                &&& forall|k: int| 0 <= k < nodes@.len() ==> !state_matches(#[trigger] nodes@[k], state_name@)
                &&& e is StatusNotFound
                &&& e->name@ == state_name@
                &&& e->available@ == present_names(nodes@)
                &&& state_lookup(nodes@, state_name@) is None
            },
        },
{
    let mut i: usize = 0;
    while i < nodes.len()
        invariant
            i <= nodes@.len(),
            forall|j: int| 0 <= j < i ==> !state_matches(#[trigger] nodes@[j], state_name@),
        decreases nodes@.len() - i,
    {
        let node = &nodes[i];
        let name = text_or_default(&node.name);
        if str_eq_ignore_ascii_case(name.as_str(), state_name) {
            assert(is_first_state(nodes@, state_name@, i as int));
            proof {
                let k = choose|k: int| is_first_state(nodes@, state_name@, k);
                lemma_first_state_unique(nodes@, state_name@, k, i as int);
            }
            return Ok(text_or_default(&node.id));
        }
        i = i + 1;
    }
    assert(!exists|k: int| is_first_state(nodes@, state_name@, k));
    let mut available: Vec<String> = Vec::new();
    let mut j: usize = 0;
    while j < nodes.len()
        invariant
            j <= nodes@.len(),
            available@ == present_names(nodes@.take(j as int)),
        decreases nodes@.len() - j,
    {
        assert(nodes@.take(j + 1).drop_last() =~= nodes@.take(j as int));
        match &nodes[j].name {
            Some(n) => available.push(n.clone()),
            None => {},
        }
        j = j + 1;
    }
    assert(nodes@.take(nodes@.len() as int) =~= nodes@);
    Err(IssuesError::StatusNotFound { name: String::from_str(state_name), available })
}

} // verus!
