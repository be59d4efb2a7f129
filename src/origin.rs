use vstd::prelude::*;

verus! {

/// The origin `protocol//hostname port` assembled from a location's parts,
/// concatenated as they are.
pub open spec fn assembled_origin(protocol: Seq<char>, hostname: Seq<char>, port: Seq<char>) -> Seq<char> {
    protocol + "//"@ + hostname + port
}

/// Assembles an origin from a location's protocol, hostname and port.
pub fn fallback_origin(protocol: &str, hostname: &str, port: &str) -> (r: String)
    ensures
        r@ == assembled_origin(protocol@, hostname@, port@),
{
    let mut r = String::from_str(protocol);
    r.append("//");
    r.append(hostname);
    r.append(port);
    proof { reveal_strlit("//"); }
    r
}

/// What a window's location reports of itself. A part is `None` where reading it failed.
#[derive(Debug, Clone, PartialEq, Eq)]
pub struct Location {
    pub origin: Option<String>,
    pub protocol: Option<String>,
    pub hostname: Option<String>,
    pub port: Option<String>,
}

/// The text of a part that may be missing, empty where it is.
pub open spec fn text_or_empty(o: Option<String>) -> Seq<char> {
    match o {
        Some(s) => s@,
        None => Seq::empty(),
    }
}

/// The origin of a location: the one it reports, else the one assembled from its parts.
pub open spec fn origin_of(l: Location) -> Seq<char> {
    match l.origin {
        Some(o) => o@,
        None => assembled_origin(
            text_or_empty(l.protocol),
            text_or_empty(l.hostname),
            text_or_empty(l.port),
        ),
    }
}

fn text_of(o: Option<String>) -> (r: String)
    ensures
        r@ == text_or_empty(o),
{
    match o {
        Some(s) => s,
        None => String::new(),
    }
}

/// The origin of a location.
pub fn location_origin(l: Location) -> (r: String)
    ensures
        r@ == origin_of(l),
{
    let Location { origin, protocol, hostname, port } = l;
    match origin {
        Some(o) => o,
        None => {
            let p = text_of(protocol);
            let h = text_of(hostname);
            let n = text_of(port);
            fallback_origin(p.as_str(), h.as_str(), n.as_str())
        },
    }
}

/// The page's origin, read from its window's location; `*` where there is no window.
pub fn get_origin(window: Option<Location>) -> (r: String)
    ensures
        r@ == match window {
            Some(l) => origin_of(l),
            None => "*"@,
        },
{
    match window {
        Some(l) => location_origin(l),
        None => {
            proof { reveal_strlit("*"); }
            String::from_str("*")
        },
    }
}

} // verus!
