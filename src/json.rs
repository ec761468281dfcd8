//! The JSON encoding of spans: one object per span, keys in sorted order,
//! either compact or pretty-printed with two-space indentation.
use vstd::prelude::*;
use vstd::string::*;
use vstd::utf8::encode_utf8;

use crate::ip::{ipv4_text, ipv6_text, push_ipv4, push_ipv6};
use crate::span::{Address, Annotation, BinaryAnnotation, Endpoint, Span, Value};
use crate::text::{decimal, hex_text, int_text, push_char, push_decimal, push_hex, push_int};
use crate::thrift::{millis, to_millis};

verus! {

/// What `serde_json` writes for a JSON string holding `s`: `s` quoted,
/// with the characters that JSON requires escaped.
pub uninterp spec fn json_string(s: Seq<char>) -> Seq<char>;

/// The standard base64 encoding, with padding, of `b`.
pub uninterp spec fn base64_of(b: Seq<u8>) -> Seq<char>;

/// Relies on `serde_json::Value::String` and its `Display`: the JSON text
/// of a string value.
#[verifier::external_body]
fn quote(s: &str) -> (r: String)
    ensures
        r@ == json_string(s@),
{
    serde_json::Value::String(s.to_owned()).to_string()
}

/// Relies on `base64::encode`: standard alphabet, with padding.
#[verifier::external_body]
fn base64_encode(b: &[u8]) -> (r: String)
    ensures
        r@ == base64_of(b@),
{
    base64::encode(b)
}

/// Two spaces per level of nesting.
pub open spec fn indent(d: nat) -> Seq<char>
    decreases d,
{
    if d == 0 {
        seq![]
    } else {
        indent((d - 1) as nat) + seq![' ', ' ']
    }
}

/// What starts a line at depth `d`: nothing in the compact form.
pub open spec fn newline(pretty: bool, d: nat) -> Seq<char> {
    if pretty {
        seq!['\n'] + indent(d)
    } else {
        seq![]
    }
}

pub open spec fn colon(pretty: bool) -> Seq<char> {
    if pretty {
        seq![':', ' ']
    } else {
        seq![':']
    }
}

/// Text between two quotes, for text that needs no escaping.
pub open spec fn quoted(s: Seq<char>) -> Seq<char> {
    seq!['"'] + s + seq!['"']
}

/// Items of an object or array, each on its own line at depth `d`,
/// separated by commas.
pub open spec fn join(items: Seq<Seq<char>>, pretty: bool, d: nat) -> Seq<char>
    decreases items.len(),
{
    if items.len() == 0 {
        seq![]
    } else {
        join(items.drop_last(), pretty, d) + (if items.len() > 1 {
            seq![',']
        } else {
            seq![]
        }) + newline(pretty, d) + items.last()
    }
}

/// A bracketed list of items at depth `d`: `open` and `close` are the
/// brackets; an empty list stays on one line.
pub open spec fn bracketed(open: char, close: char, items: Seq<Seq<char>>, pretty: bool, d: nat) -> Seq<char> {
    if items.len() == 0 {
        seq![open, close]
    } else {
        seq![open] + join(items, pretty, d + 1) + newline(pretty, d) + seq![close]
    }
}

pub open spec fn object(members: Seq<Seq<char>>, pretty: bool, d: nat) -> Seq<char> {
    bracketed('{', '}', members, pretty, d)
}

pub open spec fn array(items: Seq<Seq<char>>, pretty: bool, d: nat) -> Seq<char> {
    bracketed('[', ']', items, pretty, d)
}

/// A member of an object: its quoted key, a colon, its value.
pub open spec fn member(key: Seq<char>, value: Seq<char>, pretty: bool) -> Seq<char> {
    quoted(key) + colon(pretty) + value
}

pub open spec fn bool_text(b: bool) -> Seq<char> {
    if b {
        seq!['t', 'r', 'u', 'e']
    } else {
        seq!['f', 'a', 'l', 's', 'e']
    }
}

/// A trace id: 32 hex digits, high half first, when it has a high half;
/// 16 otherwise.
pub open spec fn trace_id_text(lo: u64, hi: Option<u64>) -> Seq<char> {
    match hi {
        Some(h) => quoted(hex_text(h as nat, 16) + hex_text(lo as nat, 16)),
        None => quoted(hex_text(lo as nat, 16)),
    }
}

/// An endpoint: its address, IPv4 or IPv6, the port when above zero, and
/// the service name, each when known.
pub open spec fn endpoint_members(e: Endpoint, pretty: bool) -> Seq<Seq<char>> {
    (match e.addr {
        Some(Address::V4 { ipv4, .. }) => seq![member("ipv4"@, quoted(ipv4_text(ipv4)), pretty)],
        _ => seq![],
    }) + (match e.addr {
        Some(Address::V6 { ipv6, .. }) => seq![member("ipv6"@, quoted(ipv6_text(ipv6)), pretty)],
        _ => seq![],
    }) + (match e.addr {
        Some(a) => if a.spec_port() > 0 {
            seq![member("port"@, decimal(a.spec_port() as nat), pretty)]
        } else {
            seq![]
        },
        None => seq![],
    }) + (match e.name {
        Some(n) => seq![member("serviceName"@, json_string(n@), pretty)],
        None => seq![],
    })
}

pub open spec fn endpoint_text(e: Endpoint, pretty: bool, d: nat) -> Seq<char> {
    object(endpoint_members(e, pretty), pretty, d)
}

pub open spec fn host_members(e: Option<Endpoint>, pretty: bool, d: nat) -> Seq<Seq<char>> {
    match e {
        Some(e) => seq![member("endpoint"@, endpoint_text(e, pretty, d), pretty)],
        None => seq![],
    }
}

/// An annotation: the recording endpoint when known, the timestamp in
/// microseconds, the value.
pub open spec fn annotation_text(a: Annotation, pretty: bool, d: nat) -> Seq<char> {
    object(
        host_members(a.endpoint, pretty, d + 1) + seq![
            member("timestamp"@, int_text(a.timestamp as int), pretty),
            member("value"@, json_string(a.value@), pretty),
        ],
        pretty,
        d,
    )
}

/// A binary annotation's value: booleans and strings as themselves,
/// integers as numbers, a float as its decimal text, bytes as a base64
/// string.
pub open spec fn value_text(v: Value) -> Seq<char> {
    match v {
        Value::Bool(b) => bool_text(b),
        Value::Bytes(b) => json_string(base64_of(b@)),
        Value::I16(x) => int_text(x as int),
        Value::I32(x) => int_text(x as int),
        Value::I64(x) => int_text(x as int),
        Value::Double(f) => f.spec_text(),
        Value::Str(s) => json_string(s@),
    }
}

/// The type tag of a value; booleans and strings carry none.
pub open spec fn type_members(v: Value, pretty: bool) -> Seq<Seq<char>> {
    match v {
        Value::Bytes(_) => seq![member("type"@, quoted("BYTES"@), pretty)],
        Value::I16(_) => seq![member("type"@, quoted("I16"@), pretty)],
        Value::I32(_) => seq![member("type"@, quoted("I32"@), pretty)],
        Value::I64(_) => seq![member("type"@, quoted("I64"@), pretty)],
        Value::Double(_) => seq![member("type"@, quoted("DOUBLE"@), pretty)],
        _ => seq![],
    }
}

/// A binary annotation: the recording endpoint when known, the key, the
/// type tag, the value.
pub open spec fn binary_annotation_text(b: BinaryAnnotation, pretty: bool, d: nat) -> Seq<char> {
    object(
        host_members(b.endpoint, pretty, d + 1) + seq![member("key"@, json_string(b.key@), pretty)]
            + type_members(b.value, pretty) + seq![member("value"@, value_text(b.value), pretty)],
        pretty,
        d,
    )
}

pub open spec fn annotations_text(s: Seq<Annotation>, pretty: bool, d: nat) -> Seq<char> {
    array(s.map_values(|a: Annotation| annotation_text(a, pretty, d + 1)), pretty, d)
}

pub open spec fn binary_annotations_text(s: Seq<BinaryAnnotation>, pretty: bool, d: nat) -> Seq<char> {
    array(s.map_values(|b: BinaryAnnotation| binary_annotation_text(b, pretty, d + 1)), pretty, d)
}

/// The members of a span that come before its id, by key: annotations
/// and binary annotations when there are any, the debug flag and the
/// duration (in milliseconds) when known.
pub open spec fn span_leading_members(s: Span, pretty: bool, d: nat) -> Seq<Seq<char>> {
    (if s.annotations@.len() == 0 {
        seq![]
    } else {
        seq![member("annotations"@, annotations_text(s.annotations@, pretty, d + 1), pretty)]
    }) + (if s.binary_annotations@.len() == 0 {
        seq![]
    } else {
        seq![
            member(
                "binaryAnnotations"@,
                binary_annotations_text(s.binary_annotations@, pretty, d + 1),
                pretty,
            ),
        ]
    }) + (match s.debug {
        Some(b) => seq![member("debug"@, bool_text(b), pretty)],
        None => seq![],
    }) + (match s.duration {
        Some(us) => seq![member("duration"@, int_text(millis(us as int)), pretty)],
        None => seq![],
    })
}

/// The members of a span from its id on: the id, the name, the parent id
/// when there is one, the timestamp (in microseconds), the trace id.
pub open spec fn span_trailing_members(s: Span, pretty: bool) -> Seq<Seq<char>> {
    seq![
        member("id"@, quoted(hex_text(s.id as nat, 16)), pretty),
        member("name"@, json_string(s.name@), pretty),
    ] + (match s.parent_id {
        Some(p) => seq![member("parentId"@, quoted(hex_text(p as nat, 16)), pretty)],
        None => seq![],
    }) + seq![
        member("timestamp"@, int_text(s.timestamp as int), pretty),
        member("traceId"@, trace_id_text(s.trace_id.lo, s.trace_id.hi), pretty),
    ]
}

/// The members of a span, in the order of their keys.
pub open spec fn span_members(s: Span, pretty: bool, d: nat) -> Seq<Seq<char>> {
    span_leading_members(s, pretty, d) + span_trailing_members(s, pretty)
}

pub open spec fn span_text(s: Span, pretty: bool, d: nat) -> Seq<char> {
    object(span_members(s, pretty, d), pretty, d)
}

/// A batch of spans: an array of span objects.
pub open spec fn spans_text(s: Seq<Span>, pretty: bool) -> Seq<char> {
    array(s.map_values(|x: Span| span_text(x, pretty, 1)), pretty, 0)
}

pub proof fn lemma_join_push(items: Seq<Seq<char>>, item: Seq<char>, pretty: bool, d: nat)
    ensures
        join(items.push(item), pretty, d) == join(items, pretty, d) + (if items.len() > 0 {
            seq![',']
        } else {
            seq![]
        }) + newline(pretty, d) + item,
{
    assert(items.push(item).drop_last() =~= items);
}

fn push_indent(out: &mut String, d: usize)
    ensures
        final(out)@ == old(out)@ + indent(d as nat),
    decreases d,
{
    if d > 0 {
        push_indent(out, d - 1);
        push_char(out, ' ');
        push_char(out, ' ');
    }
    assert(final(out)@ =~= old(out)@ + indent(d as nat));
}

fn push_newline(out: &mut String, pretty: bool, d: usize)
    ensures
        final(out)@ == old(out)@ + newline(pretty, d as nat),
{
    if pretty {
        push_char(out, '\n');
        push_indent(out, d);
    }
    assert(final(out)@ =~= old(out)@ + newline(pretty, d as nat));
}

/// Starts the item that follows `count` others at depth `d`.
fn begin_item(out: &mut String, count: usize, pretty: bool, d: usize)
    ensures
        final(out)@ == old(out)@ + (if count > 0 {
            seq![',']
        } else {
            seq![]
        }) + newline(pretty, d as nat),
{
    if count > 0 {
        push_char(out, ',');
    }
    push_newline(out, pretty, d);
    assert(final(out)@ =~= old(out)@ + (if count > 0 {
        seq![',']
    } else {
        seq![]
    }) + newline(pretty, d as nat));
}

/// Starts the member that follows `count` others at depth `d`, up to its
/// value.
fn begin_member(out: &mut String, count: usize, pretty: bool, d: usize, key: &str)
    ensures
        final(out)@ == old(out)@ + (if count > 0 {
            seq![',']
        } else {
            seq![]
        }) + newline(pretty, d as nat) + quoted(key@) + colon(pretty),
{
    begin_item(out, count, pretty, d);
    push_char(out, '"');
    out.append(key);
    push_char(out, '"');
    push_char(out, ':');
    if pretty {
        push_char(out, ' ');
    }
    assert(final(out)@ =~= old(out)@ + (if count > 0 {
        seq![',']
    } else {
        seq![]
    }) + newline(pretty, d as nat) + quoted(key@) + colon(pretty));
}

/// Closes a list of `count` items opened at depth `d`.
fn end_list(out: &mut String, count: usize, pretty: bool, d: usize, close: char)
    ensures
        final(out)@ == old(out)@ + (if count == 0 {
            seq![close]
        } else {
            newline(pretty, d as nat) + seq![close]
        }),
{
    if count > 0 {
        push_newline(out, pretty, d);
    }
    push_char(out, close);
    assert(final(out)@ =~= old(out)@ + (if count == 0 {
        seq![close]
    } else {
        newline(pretty, d as nat) + seq![close]
    }));
}

/// Appends an item after the items `items` of a list opened with `open`.
fn add_item(
    out: &mut String,
    Ghost(start): Ghost<Seq<char>>,
    Ghost(open): Ghost<char>,
    Ghost(items): Ghost<Seq<Seq<char>>>,
    n: usize,
    pretty: bool,
    d: usize,
    item: &str,
)
    requires
        old(out)@ == start + seq![open] + join(items, pretty, d as nat),
        n == items.len(),
    ensures
        final(out)@ == start + seq![open] + join(items.push(item@), pretty, d as nat),
{
    let ghost mid = out@;
    begin_item(out, n, pretty, d);
    out.append(item);
    proof {
        lemma_join_push(items, item@, pretty, d as nat);
        assert(out@ =~= start + seq![open] + join(items.push(item@), pretty, d as nat));
    }
}

/// Appends a member after the members `ms` of an object.
fn add_member(
    out: &mut String,
    Ghost(start): Ghost<Seq<char>>,
    Ghost(ms): Ghost<Seq<Seq<char>>>,
    n: usize,
    pretty: bool,
    d: usize,
    key: &str,
    value: &str,
)
    requires
        old(out)@ == start + seq!['{'] + join(ms, pretty, d as nat),
        n == ms.len(),
    ensures
        final(out)@ == start + seq!['{'] + join(
            ms.push(member(key@, value@, pretty)),
            pretty,
            d as nat,
        ),
{
    let ghost mid = out@;
    begin_member(out, n, pretty, d, key);
    out.append(value);
    proof {
        let m = member(key@, value@, pretty);
        lemma_join_push(ms, m, pretty, d as nat);
        assert(out@ =~= start + seq!['{'] + join(ms.push(m), pretty, d as nat));
    }
}

/// Closes a list of the items `items`, opened at depth `d`.
fn close_list(
    out: &mut String,
    Ghost(start): Ghost<Seq<char>>,
    open: char,
    close: char,
    Ghost(items): Ghost<Seq<Seq<char>>>,
    n: usize,
    pretty: bool,
    d: usize,
)
    requires
        old(out)@ == start + seq![open] + join(items, pretty, (d + 1) as nat),
        n == items.len(),
    ensures
        final(out)@ == start + bracketed(open, close, items, pretty, d as nat),
{
    end_list(out, n, pretty, d, close);
    assert(out@ =~= start + bracketed(open, close, items, pretty, d as nat));
}

/// Opens a list: the text so far is the opening bracket and no items.
fn open_list(out: &mut String, open: char, pretty: bool, d: usize)
    ensures
        final(out)@ == old(out)@ + seq![open] + join(seq![], pretty, d as nat),
{
    push_char(out, open);
    assert(out@ =~= old(out)@ + seq![open] + join(seq![], pretty, d as nat));
}

fn quoted_ipv4(ip: u32) -> (r: String)
    ensures
        r@ == quoted(ipv4_text(ip)),
{
    let mut r = String::new();
    push_char(&mut r, '"');
    push_ipv4(&mut r, ip);
    push_char(&mut r, '"');
    assert(r@ =~= quoted(ipv4_text(ip)));
    r
}

fn quoted_ipv6(ip: u128) -> (r: String)
    ensures
        r@ == quoted(ipv6_text(ip)),
{
    let mut r = String::new();
    push_char(&mut r, '"');
    push_ipv6(&mut r, ip);
    push_char(&mut r, '"');
    assert(r@ =~= quoted(ipv6_text(ip)));
    r
}

fn decimal_string(v: u64) -> (r: String)
    ensures
        r@ == decimal(v as nat),
{
    let mut r = String::new();
    push_decimal(&mut r, v);
    assert(r@ =~= decimal(v as nat));
    r
}

fn int_string(v: i64) -> (r: String)
    ensures
        r@ == int_text(v as int),
{
    let mut r = String::new();
    push_int(&mut r, v);
    assert(r@ =~= int_text(v as int));
    r
}

fn quoted_hex(v: u64) -> (r: String)
    ensures
        r@ == quoted(hex_text(v as nat, 16)),
{
    let mut r = String::new();
    push_char(&mut r, '"');
    push_hex(&mut r, v, 16);
    push_char(&mut r, '"');
    assert(r@ =~= quoted(hex_text(v as nat, 16)));
    r
}

#[verifier::rlimit(40)]
fn endpoint_json(e: &Endpoint, pretty: bool, d: usize) -> (r: String)
    requires
        d < 1000,
    ensures
        r@ == endpoint_text(*e, pretty, d as nat),
{
    let mut out = String::new();
    let ghost start = out@;
    open_list(&mut out, '{', pretty, d + 1);
    let ghost mut ms: Seq<Seq<char>> = seq![];
    let mut n: usize = 0;
    if let Some(Address::V4 { ipv4, .. }) = e.addr {
        let v = quoted_ipv4(ipv4);
        add_member(&mut out, Ghost(start), Ghost(ms), n, pretty, d + 1, "ipv4", v.as_str());
        proof {
            ms = ms.push(member("ipv4"@, v@, pretty));
        }
        n = n + 1;
    }
    if let Some(Address::V6 { ipv6, .. }) = e.addr {
        let v = quoted_ipv6(ipv6);
        add_member(&mut out, Ghost(start), Ghost(ms), n, pretty, d + 1, "ipv6", v.as_str());
        proof {
            ms = ms.push(member("ipv6"@, v@, pretty));
        }
        n = n + 1;
    }
    if let Some(addr) = e.addr {
        let port = addr.port();
        if port > 0 {
            let v = decimal_string(port as u64);
            add_member(&mut out, Ghost(start), Ghost(ms), n, pretty, d + 1, "port", v.as_str());
            proof {
                ms = ms.push(member("port"@, v@, pretty));
            }
            n = n + 1;
        }
    }
    if let Some(name) = &e.name {
        let v = quote(name.as_str());
        add_member(&mut out, Ghost(start), Ghost(ms), n, pretty, d + 1, "serviceName", v.as_str());
        proof {
            ms = ms.push(member("serviceName"@, v@, pretty));
        }
        n = n + 1;
    }
    close_list(&mut out, Ghost(start), '{', '}', Ghost(ms), n, pretty, d);
    assert(ms =~= endpoint_members(*e, pretty));
    out
}

fn annotation_json(a: &Annotation, pretty: bool, d: usize) -> (r: String)
    requires
        d < 999,
    ensures
        r@ == annotation_text(*a, pretty, d as nat),
{
    let mut out = String::new();
    let ghost start = out@;
    open_list(&mut out, '{', pretty, d + 1);
    let ghost mut ms: Seq<Seq<char>> = seq![];
    let mut n: usize = 0;
    if let Some(e) = &a.endpoint {
        let v = endpoint_json(e, pretty, d + 1);
        add_member(&mut out, Ghost(start), Ghost(ms), n, pretty, d + 1, "endpoint", v.as_str());
        proof {
            ms = ms.push(member("endpoint"@, v@, pretty));
        }
        n = n + 1;
    }
    let v = int_string(a.timestamp);
    add_member(&mut out, Ghost(start), Ghost(ms), n, pretty, d + 1, "timestamp", v.as_str());
    proof {
        ms = ms.push(member("timestamp"@, v@, pretty));
    }
    n = n + 1;
    let v = quote(a.value.as_str());
    add_member(&mut out, Ghost(start), Ghost(ms), n, pretty, d + 1, "value", v.as_str());
    proof {
        ms = ms.push(member("value"@, v@, pretty));
    }
    n = n + 1;
    close_list(&mut out, Ghost(start), '{', '}', Ghost(ms), n, pretty, d);
    assert(ms =~= host_members(a.endpoint, pretty, (d + 1) as nat) + seq![
        member("timestamp"@, int_text(a.timestamp as int), pretty),
        member("value"@, json_string(a.value@), pretty),
    ]);
    out
}

fn value_json(v: &Value) -> (r: String)
    ensures
        r@ == value_text(*v),
{
    match v {
        Value::Bool(b) => {
            let mut r = String::new();
            if *b {
                r.append("true");
                proof {
                    reveal_strlit("true");
                }
            } else {
                r.append("false");
                proof {
                    reveal_strlit("false");
                }
            }
            assert(r@ =~= value_text(*v));
            r
        },
        Value::Bytes(b) => {
            let t = base64_encode(b.as_slice());
            quote(t.as_str())
        },
        Value::I16(x) => int_string(*x as i64),
        Value::I32(x) => int_string(*x as i64),
        Value::I64(x) => int_string(*x),
        Value::Double(f) => f.text().to_owned(),
        Value::Str(t) => quote(t.as_str()),
    }
}

/// The type tag of a value, when it carries one.
fn type_tag(v: &Value) -> (r: Option<&'static str>)
    ensures
        r is None <==> type_members(*v, true).len() == 0,
        r is Some ==> type_members(*v, true) == seq![
            member("type"@, quoted(r->Some_0@), true),
        ] && type_members(*v, false) == seq![member("type"@, quoted(r->Some_0@), false)],
{
    match v {
        Value::Bytes(_) => Some("BYTES"),
        Value::I16(_) => Some("I16"),
        Value::I32(_) => Some("I32"),
        Value::I64(_) => Some("I64"),
        Value::Double(_) => Some("DOUBLE"),
        _ => None,
    }
}

fn quoted_str(t: &str) -> (r: String)
    ensures
        r@ == quoted(t@),
{
    let mut r = String::new();
    push_char(&mut r, '"');
    r.append(t);
    push_char(&mut r, '"');
    assert(r@ =~= quoted(t@));
    r
}

#[verifier::rlimit(40)]
fn binary_annotation_json(b: &BinaryAnnotation, pretty: bool, d: usize) -> (r: String)
    requires
        d < 999,
    ensures
        r@ == binary_annotation_text(*b, pretty, d as nat),
{
    let mut out = String::new();
    let ghost start = out@;
    open_list(&mut out, '{', pretty, d + 1);
    let ghost mut ms: Seq<Seq<char>> = seq![];
    let mut n: usize = 0;
    if let Some(e) = &b.endpoint {
        let v = endpoint_json(e, pretty, d + 1);
        add_member(&mut out, Ghost(start), Ghost(ms), n, pretty, d + 1, "endpoint", v.as_str());
        proof {
            ms = ms.push(member("endpoint"@, v@, pretty));
        }
        n = n + 1;
    }
    let v = quote(b.key.as_str());
    add_member(&mut out, Ghost(start), Ghost(ms), n, pretty, d + 1, "key", v.as_str());
    proof {
        ms = ms.push(member("key"@, v@, pretty));
    }
    n = n + 1;
    let ghost before_type = ms;
    if let Some(tag) = type_tag(&b.value) {
        let v = quoted_str(tag);
        add_member(&mut out, Ghost(start), Ghost(ms), n, pretty, d + 1, "type", v.as_str());
        proof {
            ms = ms.push(member("type"@, v@, pretty));
        }
        n = n + 1;
    }
    assert(ms =~= before_type + type_members(b.value, pretty));
    let v = value_json(&b.value);
    add_member(&mut out, Ghost(start), Ghost(ms), n, pretty, d + 1, "value", v.as_str());
    proof {
        ms = ms.push(member("value"@, v@, pretty));
    }
    n = n + 1;
    close_list(&mut out, Ghost(start), '{', '}', Ghost(ms), n, pretty, d);
    assert(ms =~= host_members(b.endpoint, pretty, (d + 1) as nat) + seq![
        member("key"@, json_string(b.key@), pretty),
    ] + type_members(b.value, pretty) + seq![member("value"@, value_text(b.value), pretty)]);
    out
}

fn annotations_json(s: &Vec<Annotation>, pretty: bool, d: usize) -> (r: String)
    requires
        d < 998,
    ensures
        r@ == annotations_text(s@, pretty, d as nat),
{
    let ghost texts = s@.map_values(|a: Annotation| annotation_text(a, pretty, (d + 1) as nat));
    let mut out = String::new();
    let ghost start = out@;
    open_list(&mut out, '[', pretty, d + 1);
    let mut i: usize = 0;
    while i < s.len()
        invariant
            i <= s@.len(),
            d < 998,
            texts == s@.map_values(|a: Annotation| annotation_text(a, pretty, (d + 1) as nat)),
            out@ == start + seq!['['] + join(texts.take(i as int), pretty, (d + 1) as nat),
        decreases s@.len() - i,
    {
        let t = annotation_json(&s[i], pretty, d + 1);
        add_item(&mut out, Ghost(start), Ghost('['), Ghost(texts.take(i as int)), i, pretty, d + 1, t.as_str());
        assert(texts.take(i as int).push(t@) =~= texts.take(i + 1));
        i = i + 1;
    }
    assert(texts.take(i as int) =~= texts);
    close_list(&mut out, Ghost(start), '[', ']', Ghost(texts), i, pretty, d);
    out
}

fn binary_annotations_json(s: &Vec<BinaryAnnotation>, pretty: bool, d: usize) -> (r: String)
    requires
        d < 998,
    ensures
        r@ == binary_annotations_text(s@, pretty, d as nat),
{
    let ghost texts = s@.map_values(
        |b: BinaryAnnotation| binary_annotation_text(b, pretty, (d + 1) as nat),
    );
    let mut out = String::new();
    let ghost start = out@;
    open_list(&mut out, '[', pretty, d + 1);
    let mut i: usize = 0;
    while i < s.len()
        invariant
            i <= s@.len(),
            d < 998,
            texts == s@.map_values(
                |b: BinaryAnnotation| binary_annotation_text(b, pretty, (d + 1) as nat),
            ),
            out@ == start + seq!['['] + join(texts.take(i as int), pretty, (d + 1) as nat),
        decreases s@.len() - i,
    {
        let t = binary_annotation_json(&s[i], pretty, d + 1);
        add_item(&mut out, Ghost(start), Ghost('['), Ghost(texts.take(i as int)), i, pretty, d + 1, t.as_str());
        assert(texts.take(i as int).push(t@) =~= texts.take(i + 1));
        i = i + 1;
    }
    assert(texts.take(i as int) =~= texts);
    close_list(&mut out, Ghost(start), '[', ']', Ghost(texts), i, pretty, d);
    out
}

fn trace_id_json(lo: u64, hi: Option<u64>) -> (r: String)
    ensures
        r@ == trace_id_text(lo, hi),
{
    let mut r = String::new();
    push_char(&mut r, '"');
    if let Some(h) = hi {
        push_hex(&mut r, h, 16);
    }
    push_hex(&mut r, lo, 16);
    push_char(&mut r, '"');
    assert(r@ =~= trace_id_text(lo, hi));
    r
}

#[verifier::rlimit(40)]
fn span_leading(
    out: &mut String,
    Ghost(start): Ghost<Seq<char>>,
    s: &Span,
    pretty: bool,
    d: usize,
) -> (n: usize)
    requires
        d < 997,
        old(out)@ == start + seq!['{'] + join(seq![], pretty, (d + 1) as nat),
    ensures
        final(out)@ == start + seq!['{'] + join(
            span_leading_members(*s, pretty, d as nat),
            pretty,
            (d + 1) as nat,
        ),
        n == span_leading_members(*s, pretty, d as nat).len(),
{
    let ghost mut ms: Seq<Seq<char>> = seq![];
    let mut n: usize = 0;
    if s.annotations.len() > 0 {
        let v = annotations_json(&s.annotations, pretty, d + 1);
        add_member(out, Ghost(start), Ghost(ms), n, pretty, d + 1, "annotations", v.as_str());
        proof {
            ms = ms.push(member("annotations"@, v@, pretty));
        }
        n = n + 1;
    }
    if s.binary_annotations.len() > 0 {
        let v = binary_annotations_json(&s.binary_annotations, pretty, d + 1);
        add_member(out, Ghost(start), Ghost(ms), n, pretty, d + 1, "binaryAnnotations", v.as_str());
        proof {
            ms = ms.push(member("binaryAnnotations"@, v@, pretty));
        }
        n = n + 1;
    }
    if let Some(b) = s.debug {
        let v = value_json(&Value::Bool(b));
        add_member(out, Ghost(start), Ghost(ms), n, pretty, d + 1, "debug", v.as_str());
        proof {
            ms = ms.push(member("debug"@, v@, pretty));
        }
        n = n + 1;
    }
    if let Some(us) = s.duration {
        let v = int_string(to_millis(us));
        add_member(out, Ghost(start), Ghost(ms), n, pretty, d + 1, "duration", v.as_str());
        proof {
            ms = ms.push(member("duration"@, v@, pretty));
        }
        n = n + 1;
    }
    assert(ms =~= span_leading_members(*s, pretty, d as nat));
    n
}

#[verifier::rlimit(40)]
fn span_trailing(
    out: &mut String,
    Ghost(start): Ghost<Seq<char>>,
    Ghost(lead): Ghost<Seq<Seq<char>>>,
    n: usize,
    s: &Span,
    pretty: bool,
    d: usize,
) -> (m: usize)
    requires
        d < 997,
        old(out)@ == start + seq!['{'] + join(lead, pretty, (d + 1) as nat),
        n == lead.len() <= 4,
    ensures
        final(out)@ == start + seq!['{'] + join(
            lead + span_trailing_members(*s, pretty),
            pretty,
            (d + 1) as nat,
        ),
        m == (lead + span_trailing_members(*s, pretty)).len(),
{
    let ghost mut ms = lead;
    let mut n = n;
    let v = quoted_hex(s.id);
    add_member(out, Ghost(start), Ghost(ms), n, pretty, d + 1, "id", v.as_str());
    proof {
        ms = ms.push(member("id"@, v@, pretty));
    }
    n = n + 1;
    let v = quote(s.name.as_str());
    add_member(out, Ghost(start), Ghost(ms), n, pretty, d + 1, "name", v.as_str());
    proof {
        ms = ms.push(member("name"@, v@, pretty));
    }
    n = n + 1;
    if let Some(p) = s.parent_id {
        let v = quoted_hex(p);
        add_member(out, Ghost(start), Ghost(ms), n, pretty, d + 1, "parentId", v.as_str());
        proof {
            ms = ms.push(member("parentId"@, v@, pretty));
        }
        n = n + 1;
    }
    let v = int_string(s.timestamp);
    add_member(out, Ghost(start), Ghost(ms), n, pretty, d + 1, "timestamp", v.as_str());
    proof {
        ms = ms.push(member("timestamp"@, v@, pretty));
    }
    n = n + 1;
    let v = trace_id_json(s.trace_id.lo, s.trace_id.hi);
    add_member(out, Ghost(start), Ghost(ms), n, pretty, d + 1, "traceId", v.as_str());
    proof {
        ms = ms.push(member("traceId"@, v@, pretty));
    }
    n = n + 1;
    assert(ms =~= lead + span_trailing_members(*s, pretty));
    n
}

fn span_json(s: &Span, pretty: bool, d: usize) -> (r: String)
    requires
        d < 997,
    ensures
        r@ == span_text(*s, pretty, d as nat),
{
    let mut out = String::new();
    let ghost start = out@;
    open_list(&mut out, '{', pretty, d + 1);
    let n = span_leading(&mut out, Ghost(start), s, pretty, d);
    let ghost lead = span_leading_members(*s, pretty, d as nat);
    let n = span_trailing(&mut out, Ghost(start), Ghost(lead), n, s, pretty, d);
    close_list(
        &mut out,
        Ghost(start),
        '{',
        '}',
        Ghost(lead + span_trailing_members(*s, pretty)),
        n,
        pretty,
        d,
    );
    out
}

fn spans_json(s: &Vec<Span>, pretty: bool) -> (r: String)
    ensures
        r@ == spans_text(s@, pretty),
{
    let ghost texts = s@.map_values(|x: Span| span_text(x, pretty, 1));
    let mut out = String::new();
    let ghost start = out@;
    open_list(&mut out, '[', pretty, 1);
    let mut i: usize = 0;
    while i < s.len()
        invariant
            i <= s@.len(),
            texts == s@.map_values(|x: Span| span_text(x, pretty, 1)),
            out@ == start + seq!['['] + join(texts.take(i as int), pretty, 1),
        decreases s@.len() - i,
    {
        let t = span_json(&s[i], pretty, 1);
        add_item(&mut out, Ghost(start), Ghost('['), Ghost(texts.take(i as int)), i, pretty, 1, t.as_str());
        assert(texts.take(i as int).push(t@) =~= texts.take(i + 1));
        i = i + 1;
    }
    assert(texts.take(i as int) =~= texts);
    close_list(&mut out, Ghost(start), '[', ']', Ghost(texts), i, pretty, 0);
    out
}

/// What can be written as JSON.
pub trait ToJson {
    /// The JSON text of the value, compact or pretty-printed.
    spec fn json_text(&self, pretty: bool) -> Seq<char>;

    fn write_json(&self, pretty: bool) -> (r: String)
        ensures
            r@ == self.json_text(pretty),
    ;
}

impl ToJson for Endpoint {
    open spec fn json_text(&self, pretty: bool) -> Seq<char> {
        endpoint_text(*self, pretty, 0)
    }

    fn write_json(&self, pretty: bool) -> (r: String) {
        endpoint_json(self, pretty, 0)
    }
}

impl ToJson for Annotation {
    open spec fn json_text(&self, pretty: bool) -> Seq<char> {
        annotation_text(*self, pretty, 0)
    }

    fn write_json(&self, pretty: bool) -> (r: String) {
        annotation_json(self, pretty, 0)
    }
}

impl ToJson for BinaryAnnotation {
    open spec fn json_text(&self, pretty: bool) -> Seq<char> {
        binary_annotation_text(*self, pretty, 0)
    }

    fn write_json(&self, pretty: bool) -> (r: String) {
        binary_annotation_json(self, pretty, 0)
    }
}

impl ToJson for Span {
    open spec fn json_text(&self, pretty: bool) -> Seq<char> {
        span_text(*self, pretty, 0)
    }

    fn write_json(&self, pretty: bool) -> (r: String) {
        span_json(self, pretty, 0)
    }
}

impl ToJson for Vec<Span> {
    open spec fn json_text(&self, pretty: bool) -> Seq<char> {
        spans_text(self@, pretty)
    }

    fn write_json(&self, pretty: bool) -> (r: String) {
        spans_json(self, pretty)
    }
}

/// The compact JSON text of `value`.
pub fn to_string<T: ToJson>(value: &T) -> (r: String)
    ensures
        r@ == value.json_text(false),
{
    value.write_json(false)
}

/// The pretty-printed JSON text of `value`.
pub fn to_string_pretty<T: ToJson>(value: &T) -> (r: String)
    ensures
        r@ == value.json_text(true),
{
    value.write_json(true)
}

/// The compact JSON text of `value`, in UTF-8.
pub fn to_vec<T: ToJson>(value: &T) -> (r: Vec<u8>)
    ensures
        r@ == encode_utf8(value.json_text(false)),
{
    let mut out: Vec<u8> = Vec::new();
    to_writer(&mut out, value);
    assert(out@ =~= encode_utf8(value.json_text(false)));
    out
}

/// The pretty-printed JSON text of `value`, in UTF-8.
pub fn to_vec_pretty<T: ToJson>(value: &T) -> (r: Vec<u8>)
    ensures
        r@ == encode_utf8(value.json_text(true)),
{
    let mut out: Vec<u8> = Vec::new();
    to_writer_pretty(&mut out, value);
    assert(out@ =~= encode_utf8(value.json_text(true)));
    out
}

/// Appends the compact JSON text of `value`, in UTF-8, to `out`.
pub fn to_writer<T: ToJson>(out: &mut Vec<u8>, value: &T)
    ensures
        final(out)@ == old(out)@ + encode_utf8(value.json_text(false)),
{
    let text = value.write_json(false);
    crate::octets::push_slice(out, text.as_str().as_bytes());
}

/// Appends the pretty-printed JSON text of `value`, in UTF-8, to `out`.
pub fn to_writer_pretty<T: ToJson>(out: &mut Vec<u8>, value: &T)
    ensures
        final(out)@ == old(out)@ + encode_utf8(value.json_text(true)),
{
    let text = value.write_json(true);
    crate::octets::push_slice(out, text.as_str().as_bytes());
}

} // verus!
