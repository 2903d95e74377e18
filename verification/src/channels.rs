//! Resolution of the configured channel name to a channel id, from the
//! channel listing that the connection handshake delivers.

use vstd::prelude::*;

verus! {

/// One channel or private group as the connection handshake lists it.
pub struct ChannelInfo {
    pub name: String,
    pub id: String,
}

/// The position of the first listed channel whose name equals `name`
/// exactly (case-sensitive), or `None` when no listed name matches.
pub open spec fn resolve_index(channels: Seq<ChannelInfo>, name: Seq<char>) -> Option<int>
    decreases channels.len(),
{
    if channels.len() == 0 {
        None
    } else if channels[0].name@ == name {
        Some(0)
    } else {
        match resolve_index(channels.drop_first(), name) {
            Some(i) => Some(i + 1),
            None => None,
        }
    }
}

/// The id that `name` resolves to, when some listed channel carries it.
pub open spec fn resolved_id(channels: Seq<ChannelInfo>, name: Seq<char>) -> Option<String> {
    match resolve_index(channels, name) {
        Some(i) => Some(channels[i].id),
        None => None,
    }
}

/// Resolution reports an id exactly when some listed channel carries the
/// configured name, and the id reported is that of the first such entry.
pub proof fn lemma_resolve_characterizes(channels: Seq<ChannelInfo>, name: Seq<char>)
    ensures
        match resolve_index(channels, name) {
            Some(i) => {
                &&& 0 <= i < channels.len()
                &&& channels[i].name@ == name
                &&& forall|j: int| 0 <= j < i ==> channels[j].name@ != name
            },
            None => forall|j: int| 0 <= j < channels.len() ==> channels[j].name@ != name,
        },
    decreases channels.len(),
{
    if channels.len() == 0 {
    } else if channels[0].name@ == name {
    } else {
        let rest = channels.drop_first();
        lemma_resolve_characterizes(rest, name);
        match resolve_index(rest, name) {
            Some(i) => {
                assert(channels[i + 1] == rest[i]);
                assert forall|j: int| 0 <= j < i + 1 implies channels[j].name@ != name by {
                    if j >= 1 {
                        assert(channels[j] == rest[j - 1]);
                    }
                }
            },
            None => {
                assert forall|j: int|
                    0 <= j < channels.len() implies channels[j].name@ != name by {
                    if j >= 1 {
                        assert(channels[j] == rest[j - 1]);
                    }
                }
            },
        }
    }
}

/// Search the handshake's channel listing for the configured name and hand
/// back the id of the first entry that carries it; `None` when no entry does.
pub fn resolve_channel_id(channels: &Vec<ChannelInfo>, name: &String) -> (r: Option<String>)
    ensures
        r == resolved_id(channels@, name@),
{
    let mut i: usize = 0;
    while i < channels.len()
        invariant
            i <= channels.len(),
            forall|j: int| 0 <= j < i ==> channels@[j].name@ != name@,
        decreases channels.len() - i,
    {
        if channels[i].name == *name {
            proof {
                lemma_resolve_characterizes(channels@, name@);
                match resolve_index(channels@, name@) {
                    Some(f) => {
                        if f < i {
                            assert(channels@[f].name@ == name@);
                        }
                        if f > i {
                            assert(channels@[i as int].name@ != name@);
                        }
                    },
                    None => {
                        assert(channels@[i as int].name@ != name@);
                    },
                }
            }
            return Some(channels[i].id.clone());
        }
        i += 1;
    }
    proof {
        lemma_resolve_characterizes(channels@, name@);
        if resolve_index(channels@, name@) is Some {
            let f = resolve_index(channels@, name@)->0;
            assert(channels@[f].name@ != name@);
        }
    }
    None
}

} // verus!
