//! Proxy headers added to a request before it is forwarded.
//!
//! Only `X-Forwarded-For` is maintained: the address of the client is appended
//! to the value that the request already carries, or becomes the value when
//! there is none or the present one is not visible ASCII.
use vstd::prelude::*;
use http::header::{HeaderMap, HeaderValue, InvalidHeaderValue, MaxSizeReached};
use vstd::string::StringSliceAdditionalSpecFns;

verus! {

#[verifier::external_type_specification]
#[verifier::external_body]
#[verifier::reject_recursive_types(T)]
pub struct ExHeaderMap<T>(HeaderMap<T>);

#[verifier::external_type_specification]
#[verifier::external_body]
pub struct ExHeaderValue(HeaderValue);

#[verifier::external_type_specification]
#[verifier::external_body]
pub struct ExInvalidHeaderValue(InvalidHeaderValue);

#[verifier::external_type_specification]
#[verifier::external_body]
pub struct ExMaxSizeReached(MaxSizeReached);

/// What a header map holds: for each name, in lower case, its values in order.
pub uninterp spec fn header_map_contents(m: HeaderMap) -> Map<Seq<u8>, Seq<Seq<u8>>>;

/// The bytes of a header value.
pub uninterp spec fn header_value_bytes(v: HeaderValue) -> Seq<u8>;

/// A byte that `HeaderValue` accepts: any byte from 32 up but 127 (DEL), and tab.
pub open spec fn header_value_byte(b: u8) -> bool {
    (b >= 32 && b != 127) || b == 9
}

/// A byte that `HeaderValue::to_str` accepts: visible ASCII (32 to 126) and tab.
pub open spec fn visible_ascii_byte(b: u8) -> bool {
    (b >= 32 && b < 127) || b == 9
}

pub open spec fn all_header_value_bytes(s: Seq<u8>) -> bool {
    forall|i: int| 0 <= i < s.len() ==> header_value_byte(#[trigger] s[i])
}

pub open spec fn all_visible_ascii(s: Seq<u8>) -> bool {
    forall|i: int| 0 <= i < s.len() ==> visible_ascii_byte(#[trigger] s[i])
}

/// A name character that parses to itself, lower-cased: ASCII letters, digits and `-`.
pub open spec fn plain_name_char(c: char) -> bool {
    ('a' <= c && c <= 'z') || ('A' <= c && c <= 'Z') || ('0' <= c && c <= '9') || c == '-'
}

/// Header names this module passes to the map: 1 to 64 plain characters.
pub open spec fn plain_header_name(name: Seq<char>) -> bool {
    &&& 1 <= name.len() <= 64
    &&& forall|i: int| 0 <= i < name.len() ==> plain_name_char(#[trigger] name[i])
}

/// The byte a plain name character is stored as: upper case letters lowered.
pub open spec fn lower_name_byte(c: char) -> u8 {
    if 'A' <= c && c <= 'Z' {
        (c as u32 + 32) as u8
    } else {
        c as u32 as u8
    }
}

/// The key under which the map stores a plain name.
pub open spec fn header_key(name: Seq<char>) -> Seq<u8> {
    Seq::new(name.len(), |i: int| lower_name_byte(name[i]))
}

/// The first value stored under `key`, if any: what `HeaderMap::get` returns.
pub open spec fn first_value(contents: Map<Seq<u8>, Seq<Seq<u8>>>, key: Seq<u8>) -> Option<Seq<u8>> {
    if contents.dom().contains(key) && contents[key].len() > 0 {
        Some(contents[key][0])
    } else {
        None
    }
}

/// Distinct names below which an insertion never has to grow the map past its
/// size limit: growing past it is refused with `MaxSizeReached`, which a map in
/// any state can first meet when it already holds 6554 names.
pub open spec fn insert_room(contents: Map<Seq<u8>, Seq<Seq<u8>>>) -> bool {
    contents.dom().len() < 6554
}

/// `HeaderMap::get` with a `&str` name: the first value stored under the
/// lower-cased name, handed out as its bytes (`HeaderValue::as_bytes`).
#[verifier::external_body]
fn header_first_value<'a>(headers: &'a HeaderMap, name: &str) -> (res: Option<&'a [u8]>)
    requires
        plain_header_name(name@),
    ensures
        match first_value(header_map_contents(*headers), header_key(name@)) {
            Some(b) => res matches Some(r) && r@ == b,
            None => res is None,
        },
{
    match headers.get(name) {
        Some(v) => Some(v.as_bytes()),
        None => None,
    }
}

/// `HeaderMap::try_insert` with a `&'static str` name: on success all values
/// stored under the lower-cased name are replaced by `value` and other names keep
/// theirs; `MaxSizeReached` comes only when the map would have to grow past its
/// size limit, before anything is changed, and never while it holds fewer than
/// 6554 names. The name is valid, so `from_static` does not panic.
#[verifier::external_body]
fn header_insert(headers: &mut HeaderMap, name: &'static str, value: HeaderValue) -> (res: Result<
    (),
    MaxSizeReached,
>)
    requires
        plain_header_name(name@),
    ensures
        res is Ok ==> header_map_contents(*final(headers)) == header_map_contents(
            *old(headers),
        ).insert(header_key(name@), seq![header_value_bytes(value)]),
        res is Err ==> header_map_contents(*final(headers)) == header_map_contents(*old(headers)),
        insert_room(header_map_contents(*old(headers))) ==> res is Ok,
{
    match headers.try_insert(name, value) {
        Ok(_) => Ok(()),
        Err(e) => Err(e),
    }
}

/// `HeaderValue::from_bytes`: accepted exactly when every byte is a header value
/// byte, and the value then holds those bytes.
#[verifier::external_body]
fn header_value_from_bytes(bytes: &[u8]) -> (res: Result<HeaderValue, InvalidHeaderValue>)
    ensures
        res is Ok <==> all_header_value_bytes(bytes@),
        res matches Ok(v) ==> header_value_bytes(v) == bytes@,
{
    HeaderValue::from_bytes(bytes)
}

/// The `X-Forwarded-For` value sent upstream: the present value, a comma and the
/// client address when the present value is visible ASCII; the client address otherwise.
pub open spec fn forwarded_for(existing: Option<Seq<u8>>, client: Seq<u8>) -> Seq<u8> {
    match existing {
        Some(b) => if all_visible_ascii(b) {
            b.push(44u8) + client
        } else {
            client
        },
        None => client,
    }
}

/// The map key of `X-Forwarded-For`.
pub open spec fn forwarded_for_key() -> Seq<u8> {
    header_key("X-Forwarded-For"@)
}

fn is_visible_ascii(bytes: &[u8]) -> (ok: bool)
    ensures
        ok == all_visible_ascii(bytes@),
{
    let mut i: usize = 0;
    while i < bytes.len()
        invariant
            i <= bytes@.len(),
            forall|j: int| 0 <= j < i ==> visible_ascii_byte(#[trigger] bytes@[j]),
        decreases bytes@.len() - i,
    {
        let b: u8 = bytes[i];
        if !((b >= 32 && b < 127) || b == 9) {
            return false;
        }
        i = i + 1;
    }
    true
}

fn append_bytes(dst: &mut Vec<u8>, src: &[u8])
    ensures
        final(dst)@ == old(dst)@ + src@,
{
    let mut i: usize = 0;
    while i < src.len()
        invariant
            i <= src@.len(),
            dst@ == old(dst)@ + src@.subrange(0, i as int),
        decreases src@.len() - i,
    {
        dst.push(src[i]);
        i = i + 1;
        assert(dst@ =~= old(dst)@ + src@.subrange(0, i as int));
    }
    assert(src@.subrange(0, src@.len() as int) =~= src@);
}

proof fn lemma_forwarded_for_name()
    ensures
        plain_header_name("X-Forwarded-For"@),
{
    reveal_strlit("X-Forwarded-For");
}

/// Sets `X-Forwarded-For` on the headers of a request forwarded for the client at
/// `client_ip` (its address as text). The new value is always a valid header
/// value, so building it never fails; every other header is left as it was.
/// `MaxSizeReached` comes back, with the headers unchanged, only when the map
/// is at its size limit, which it cannot be below 6554 names.
pub fn set_proxy_headers(headers: &mut HeaderMap, client_ip: &str) -> (res: Result<
    (),
    MaxSizeReached,
>)
    requires
        all_header_value_bytes(client_ip.spec_bytes()),
    ensures
        res is Err ==> header_map_contents(*final(headers)) == header_map_contents(*old(headers)),
        insert_room(header_map_contents(*old(headers))) ==> res is Ok,
        res is Ok ==> header_map_contents(*final(headers)) == header_map_contents(*old(headers)).insert(
            forwarded_for_key(),
            seq![
                forwarded_for(
                    first_value(header_map_contents(*old(headers)), forwarded_for_key()),
                    client_ip.spec_bytes(),
                )
            ],
        ),
{
    proof {
        lemma_forwarded_for_name();
    }
    let ghost existing = first_value(header_map_contents(*headers), forwarded_for_key());
    let mut value: Vec<u8> = Vec::new();
    match header_first_value(headers, "X-Forwarded-For") {
        Some(present) => {
            if is_visible_ascii(present) {
                append_bytes(&mut value, present);
                value.push(44u8);
            }
        },
        None => {},
    }
    let ip = client_ip.as_bytes();
    append_bytes(&mut value, ip);
    assert(value@ =~= forwarded_for(existing, client_ip.spec_bytes()));
    proof {
        law_forwarded_for_is_valid(existing, client_ip.spec_bytes());
    }
    match header_value_from_bytes(value.as_slice()) {
        Ok(v) => header_insert(headers, "X-Forwarded-For", v),
        Err(_) => Ok(()),
    }
}


/// The value sent upstream is always a valid header value when the client
/// address is, whatever the request carried before.
pub proof fn law_forwarded_for_is_valid(existing: Option<Seq<u8>>, client: Seq<u8>)
    requires
        all_header_value_bytes(client),
    ensures
        all_header_value_bytes(forwarded_for(existing, client)),
{
    let v = forwarded_for(existing, client);
    assert forall|i: int| 0 <= i < v.len() implies header_value_byte(#[trigger] v[i]) by {
        match existing {
            Some(b) => {
                if all_visible_ascii(b) {
                    if i < b.len() {
                        assert(visible_ascii_byte(b[i]));
                    } else if i > b.len() {
                        assert(v[i] == client[i - b.len() - 1]);
                    }
                }
            },
            None => {},
        }
    }
}

/// Through a chain of proxies the addresses accumulate in the order the request
/// passed them, separated by commas.
pub proof fn law_forwarded_for_accumulates(first: Seq<u8>, second: Seq<u8>)
    requires
        all_visible_ascii(first),
    ensures
        forwarded_for(Some(forwarded_for(None, first)), second) == first.push(44u8) + second,
{
}

/// A present value that is not visible ASCII is dropped, not extended.
pub proof fn law_invalid_value_replaced(existing: Seq<u8>, client: Seq<u8>)
    requires
        !all_visible_ascii(existing),
    ensures
        forwarded_for(Some(existing), client) == client,
{
}

} // verus!
