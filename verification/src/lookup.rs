//! The media-lookup side of the bot: building the request URL for a keyword,
//! reading the media URL out of the service's response document, and deciding
//! the outbound reply that a lookup outcome leads to.

use vstd::prelude::*;
use vstd::string::StringExecFns;

verus! {

/// The request URL of one media lookup: the fixed endpoint with the api key
/// and the keyword as its two query parameters.
pub open spec fn lookup_url(api_key: Seq<char>, tag: Seq<char>) -> Seq<char> {
    "http://api.giphy.com/v1/gifs/random?api_key="@ + api_key + "&tag="@ + tag
}

/// Build the request URL for looking up media tagged `tag`.
pub fn build_lookup_url(api_key: &str, tag: &str) -> (r: String)
    ensures
        r@ == lookup_url(api_key@, tag@),
{
    let mut url = String::new();
    url.append("http://api.giphy.com/v1/gifs/random?api_key=");
    url.append(api_key);
    url.append("&tag=");
    url.append(tag);
    proof {
        assert(url@ =~= lookup_url(api_key@, tag@));
    }
    url
}

/// A response document of the media-lookup service, as far as the bot reads
/// one: string values, mappings with string keys in document order, and every
/// other kind of value collapsed to `Other`. The caller converts the parsed
/// body to this shape, one node for one, before handing it in.
pub enum YamlNode {
    /// A string value.
    Str(String),
    /// A mapping, as its key/value entries in document order.
    Mapping(Vec<(String, YamlNode)>),
    /// A value of any other kind (number, sequence, null, ...).
    Other,
}

/// The position of the first entry carrying `key`, or `None` when no entry
/// does.
pub open spec fn entry_index(entries: Seq<(String, YamlNode)>, key: Seq<char>) -> Option<int>
    decreases entries.len(),
{
    if entries.len() == 0 {
        None
    } else if entries[0].0@ == key {
        Some(0)
    } else {
        match entry_index(entries.drop_first(), key) {
            Some(i) => Some(i + 1),
            None => None,
        }
    }
}

/// The value under `key` when `node` is a mapping with such an entry; the
/// first entry counts when a key repeats.
pub open spec fn field_of(node: YamlNode, key: Seq<char>) -> Option<YamlNode> {
    match node {
        YamlNode::Mapping(entries) => match entry_index(entries@, key) {
            Some(i) => Some(entries@[i].1),
            None => None,
        },
        _ => None,
    }
}

/// What a lookup response document yields: the string under `data.url`, and
/// nothing on any other shape — a missing `data` entry, a `data` that is no
/// mapping, a missing `url` entry, or a `url` that is no string.
pub open spec fn media_url_of(doc: YamlNode) -> Option<Seq<char>> {
    match field_of(doc, "data"@) {
        Some(data) => match field_of(data, "url"@) {
            Some(YamlNode::Str(s)) => Some(s@),
            _ => None,
        },
        None => None,
    }
}

/// An entry is found exactly when some entry carries the key, and the entry
/// found is the first that does.
proof fn lemma_entry_index_characterizes(entries: Seq<(String, YamlNode)>, key: Seq<char>)
    ensures
        match entry_index(entries, key) {
            Some(i) => {
                &&& 0 <= i < entries.len()
                &&& entries[i].0@ == key
                &&& forall|j: int| 0 <= j < i ==> entries[j].0@ != key
            },
            None => forall|j: int| 0 <= j < entries.len() ==> entries[j].0@ != key,
        },
    decreases entries.len(),
{
    if entries.len() == 0 {
    } else if entries[0].0@ == key {
    } else {
        let rest = entries.drop_first();
        lemma_entry_index_characterizes(rest, key);
        match entry_index(rest, key) {
            Some(i) => {
                assert(entries[i + 1] == rest[i]);
                assert forall|j: int| 0 <= j < i + 1 implies entries[j].0@ != key by {
                    if j >= 1 {
                        assert(entries[j] == rest[j - 1]);
                    }
                }
            },
            None => {
                assert forall|j: int| 0 <= j < entries.len() implies entries[j].0@ != key by {
                    if j >= 1 {
                        assert(entries[j] == rest[j - 1]);
                    }
                }
            },
        }
    }
}

/// Search a mapping's entries in document order for `key`; on any node that
/// is no mapping there is nothing to find.
fn get_field<'a>(node: &'a YamlNode, key: &String) -> (r: Option<&'a YamlNode>)
    ensures
        match r {
            Some(v) => field_of(*node, key@) == Some(*v),
            None => field_of(*node, key@) is None,
        },
{
    match node {
        YamlNode::Mapping(entries) => {
            let mut i: usize = 0;
            while i < entries.len()
                invariant
                    i <= entries.len(),
                    *node == YamlNode::Mapping(*entries),
                    forall|j: int| 0 <= j < i ==> entries@[j].0@ != key@,
                decreases entries.len() - i,
            {
                if entries[i].0 == *key {
                    proof {
                        lemma_entry_index_characterizes(entries@, key@);
                        match entry_index(entries@, key@) {
                            Some(f) => {
                                if f < i {
                                    assert(entries@[f].0@ == key@);
                                }
                                if f > i {
                                    assert(entries@[i as int].0@ != key@);
                                }
                            },
                            None => {
                                assert(entries@[i as int].0@ != key@);
                            },
                        }
                    }
                    return Some(&entries[i].1);
                }
                i += 1;
            }
            proof {
                lemma_entry_index_characterizes(entries@, key@);
                if entry_index(entries@, key@) is Some {
                    let f = entry_index(entries@, key@)->0;
                    assert(entries@[f].0@ != key@);
                }
            }
            None
        },
        _ => None,
    }
}

/// Read the `data.url` string field of a lookup response document: the media
/// URL exactly when the document has the shape the service promises, and
/// nothing on every other shape.
pub fn extract_media_url(doc: &YamlNode) -> (r: Option<String>)
    ensures
        match media_url_of(*doc) {
            Some(url) => r is Some && r->0@ == url,
            None => r is None,
        },
{
    let data_key = "data".to_owned();
    let url_key = "url".to_owned();
    match get_field(doc, &data_key) {
        Some(data) => match get_field(data, &url_key) {
            Some(url) => match url {
                YamlNode::Str(s) => Some(s.clone()),
                _ => None,
            },
            None => None,
        },
        None => None,
    }
}

/// One outbound chat message: a media URL sent to the bound channel.
pub struct OutboundMessage {
    pub channel: String,
    pub text: String,
}

/// What a lookup outcome leads to: a reply carrying the URL exactly as the
/// lookup handed it out, to the given channel; no reply at all when the
/// lookup came back absent.
pub open spec fn reply_of(channel: String, lookup: Option<String>) -> Option<OutboundMessage> {
    match lookup {
        Some(url) => Some((OutboundMessage { channel: channel, text: url })),
        None => None,
    }
}

/// Decide the reply that follows a lookup outcome.
pub fn decide_reply(channel: &String, lookup: Option<String>) -> (r: Option<OutboundMessage>)
    ensures
        r == reply_of(*channel, lookup),
{
    match lookup {
        Some(url) => Some(OutboundMessage { channel: channel.clone(), text: url }),
        None => None,
    }
}

/// Lookup failure is isolated: a lookup that comes back absent sends
/// nothing, whatever channel the session is bound to.
pub proof fn lemma_absent_lookup_sends_nothing(channel: String)
    ensures
        reply_of(channel, None) is None,
{
}

} // verus!
