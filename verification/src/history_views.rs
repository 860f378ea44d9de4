//! Facts read off a conversation history: the latest message of a kind.

use vstd::prelude::*;
use crate::types::{ConversationEntry, Sender};

verus! {

/// The message of the last entry sent by the user.
pub open spec fn latest_user_message(h: Seq<ConversationEntry>) -> Option<Seq<char>>
    decreases h.len(),
{
    if h.len() == 0 {
        None
    } else if h.last().sender is User {
        Some(h.last().message@)
    } else {
        latest_user_message(h.drop_last())
    }
}

/// The message of the last entry sent by the agent (as `Agent` or `Assistant`).
pub open spec fn latest_agent_message(h: Seq<ConversationEntry>) -> Option<Seq<char>>
    decreases h.len(),
{
    if h.len() == 0 {
        None
    } else if h.last().sender is Agent || h.last().sender is Assistant {
        Some(h.last().message@)
    } else {
        latest_agent_message(h.drop_last())
    }
}

/// The user message that `latest_user_message` names is the message of a
/// user entry after which the user sent nothing; when it names none, the
/// user sent nothing at all.
pub proof fn lemma_latest_user_message_is_last(h: Seq<ConversationEntry>)
    ensures
        match latest_user_message(h) {
            Some(m) => exists|j: int|
                #![trigger h[j]]
                0 <= j < h.len() && h[j].sender is User && h[j].message@ == m && forall|k: int|
                    j < k < h.len() ==> !(#[trigger] h[k].sender is User),
            None => forall|k: int| 0 <= k < h.len() ==> !(#[trigger] h[k].sender is User),
        },
    decreases h.len(),
{
    if h.len() > 0 {
        let j0 = h.len() - 1;
        if h.last().sender is User {
            assert(h[j0].sender is User);
        } else {
            let t = h.drop_last();
            lemma_latest_user_message_is_last(t);
            match latest_user_message(t) {
                Some(m) => {
                    let j = choose|j: int|
                        #![trigger t[j]]
                        0 <= j < t.len() && t[j].sender is User && t[j].message@ == m && forall|k: int|
                            j < k < t.len() ==> !(#[trigger] t[k].sender is User);
                    assert(h[j] == t[j]);
                    assert forall|k: int| j < k < h.len() implies !(#[trigger] h[k].sender is User) by {
                        if k < j0 {
                            assert(h[k] == t[k]);
                        }
                    }
                },
                None => {
                    assert forall|k: int| 0 <= k < h.len() implies !(#[trigger] h[k].sender is User) by {
                        if k < j0 {
                            assert(h[k] == t[k]);
                        }
                    }
                },
            }
        }
    }
}

/// The agent message that `latest_agent_message` names is the message of an
/// `Agent` or `Assistant` entry after which the agent sent nothing; when it
/// names none, the agent sent nothing at all.
pub proof fn lemma_latest_agent_message_is_last(h: Seq<ConversationEntry>)
    ensures
        match latest_agent_message(h) {
            Some(m) => exists|j: int|
                #![trigger h[j]]
                0 <= j < h.len() && (h[j].sender is Agent || h[j].sender is Assistant) && h[j].message@ == m
                    && forall|k: int|
                    j < k < h.len() ==> !(#[trigger] h[k].sender is Agent || h[k].sender is Assistant),
            None => forall|k: int| 0 <= k < h.len() ==> !(#[trigger] h[k].sender is Agent || h[k].sender is Assistant),
        },
    decreases h.len(),
{
    if h.len() > 0 {
        let j0 = h.len() - 1;
        if h.last().sender is Agent || h.last().sender is Assistant {
            assert(h[j0].sender is Agent || h[j0].sender is Assistant);
        } else {
            let t = h.drop_last();
            lemma_latest_agent_message_is_last(t);
            match latest_agent_message(t) {
                Some(m) => {
                    let j = choose|j: int|
                        #![trigger t[j]]
                        0 <= j < t.len() && (t[j].sender is Agent || t[j].sender is Assistant) && t[j].message@ == m
                            && forall|k: int|
                            j < k < t.len() ==> !(#[trigger] t[k].sender is Agent || t[k].sender is Assistant);
                    assert(h[j] == t[j]);
                    assert forall|k: int| j < k < h.len() implies !(#[trigger] h[k].sender is Agent || h[k].sender is Assistant) by {
                        if k < j0 {
                            assert(h[k] == t[k]);
                        }
                    }
                },
                None => {
                    assert forall|k: int| 0 <= k < h.len() implies !(#[trigger] h[k].sender is Agent || h[k].sender is Assistant) by {
                        if k < j0 {
                            assert(h[k] == t[k]);
                        }
                    }
                },
            }
        }
    }
}

/// The last message from the user, if any.
pub fn find_latest_user_message(h: &Vec<ConversationEntry>) -> (r: Option<String>)
    ensures
        match r {
            Some(m) => latest_user_message(h@) == Some(m@),
            None => latest_user_message(h@) is None,
        },
        match r {
            Some(m) => exists|j: int|
                #![trigger h@[j]]
                0 <= j < h@.len() && h@[j].sender is User && h@[j].message@ == m@ && forall|k: int|
                    j < k < h@.len() ==> !(#[trigger] h@[k].sender is User),
            None => forall|k: int| 0 <= k < h@.len() ==> !(#[trigger] h@[k].sender is User),
        },
{
    proof {
        lemma_latest_user_message_is_last(h@);
    }
    let mut i = h.len();
    assert(h@.take(i as int) =~= h@);
    while i > 0
        invariant
            i <= h.len(),
            latest_user_message(h@) == latest_user_message(h@.take(i as int)),
        decreases i,
    {
        assert(h@.take(i as int).drop_last() =~= h@.take(i - 1));
        match h[i - 1].sender {
            Sender::User => {
                proof {
                    lemma_latest_user_message_is_last(h@);
                }
                return Some(h[i - 1].message.clone());
            },
            _ => {},
        }
        i = i - 1;
    }
    None
}

/// The last message from the agent, if any.
pub fn find_latest_agent_message(h: &Vec<ConversationEntry>) -> (r: Option<String>)
    ensures
        match r {
            Some(m) => latest_agent_message(h@) == Some(m@),
            None => latest_agent_message(h@) is None,
        },
        match r {
            Some(m) => exists|j: int|
                #![trigger h@[j]]
                0 <= j < h@.len() && (h@[j].sender is Agent || h@[j].sender is Assistant) && h@[j].message@ == m@
                    && forall|k: int|
                    j < k < h@.len() ==> !(#[trigger] h@[k].sender is Agent || h@[k].sender is Assistant),
            None => forall|k: int| 0 <= k < h@.len() ==> !(#[trigger] h@[k].sender is Agent || h@[k].sender is Assistant),
        },
{
    proof {
        lemma_latest_agent_message_is_last(h@);
    }
    let mut i = h.len();
    assert(h@.take(i as int) =~= h@);
    while i > 0
        invariant
            i <= h.len(),
            latest_agent_message(h@) == latest_agent_message(h@.take(i as int)),
        decreases i,
    {
        assert(h@.take(i as int).drop_last() =~= h@.take(i - 1));
        match h[i - 1].sender {
            Sender::Agent | Sender::Assistant => {
                proof {
                    lemma_latest_agent_message_is_last(h@);
                }
                return Some(h[i - 1].message.clone());
            },
            _ => {},
        }
        i = i - 1;
    }
    None
}

} // verus!
