//! Classifies a connection's protocol from a non-consuming read of its
//! first bytes.

use vstd::prelude::*;

verus! {

/// The application protocols that the sniffer recognizes. A connection
/// whose protocol is not recognized is opaque (no variant).
#[derive(Clone, Copy, Debug, PartialEq, Eq, Structural)]
pub enum Protocol {
    Http1,
    Http2,
}

/// The HTTP/2 connection preface, `PRI * HTTP/2.0\r\n\r\nSM\r\n\r\n`.
pub open spec fn h2_preface() -> Seq<u8> {
    seq![
        0x50u8, 0x52u8, 0x49u8, 0x20u8, 0x2au8, 0x20u8, 0x48u8, 0x54u8,  // PRI * HT
        0x54u8, 0x50u8, 0x2fu8, 0x32u8, 0x2eu8, 0x30u8,  // TP/2.0
        0x0du8, 0x0au8, 0x0du8, 0x0au8, 0x53u8, 0x4du8, 0x0du8, 0x0au8,  // \r\n\r\nSM\r\n
        0x0du8, 0x0au8,  // \r\n
    ]
}

/// How many request methods the sniffer recognizes.
pub const N_METHODS: usize = 9;

/// ASCII space, which ends the method token.
pub const SP: u8 = 0x20;

/// The recognized HTTP/1 request methods, by index (in ASCII).
pub open spec fn method(i: int) -> Seq<u8> {
    if i == 0 {
        seq![0x47u8, 0x45u8, 0x54u8]  // GET
    } else if i == 1 {
        seq![0x48u8, 0x45u8, 0x41u8, 0x44u8]  // HEAD
    } else if i == 2 {
        seq![0x50u8, 0x4fu8, 0x53u8, 0x54u8]  // POST
    } else if i == 3 {
        seq![0x50u8, 0x55u8, 0x54u8]  // PUT
    } else if i == 4 {
        seq![0x44u8, 0x45u8, 0x4cu8, 0x45u8, 0x54u8, 0x45u8]  // DELETE
    } else if i == 5 {
        seq![0x43u8, 0x4fu8, 0x4eu8, 0x4eu8, 0x45u8, 0x43u8, 0x54u8]  // CONNECT
    } else if i == 6 {
        seq![0x4fu8, 0x50u8, 0x54u8, 0x49u8, 0x4fu8, 0x4eu8, 0x53u8]  // OPTIONS
    } else if i == 7 {
        seq![0x54u8, 0x52u8, 0x41u8, 0x43u8, 0x45u8]  // TRACE
    } else {
        seq![0x50u8, 0x41u8, 0x54u8, 0x43u8, 0x48u8]  // PATCH
    }
}

pub open spec fn starts_with(w: Seq<u8>, p: Seq<u8>) -> bool {
    p.len() <= w.len() && w.subrange(0, p.len() as int) == p
}

/// A byte that can begin a request target: visible ASCII, not a space.
pub open spec fn is_target_byte(b: u8) -> bool {
    0x21 <= b <= 0x7e
}

/// The window begins with method `m`, a space and the first byte of a
/// request target.
pub open spec fn request_line_start(w: Seq<u8>, m: Seq<u8>) -> bool {
    &&& starts_with(w, m)
    &&& w.len() >= m.len() + 2
    &&& w[m.len() as int] == SP
    &&& is_target_byte(w[m.len() + 1int])
}

/// The window begins the way an HTTP/1 request line does.
pub open spec fn looks_like_http1(w: Seq<u8>) -> bool {
    exists|i: int| 0 <= i < N_METHODS && #[trigger] request_line_start(w, method(i))
}

/// The classification of a read-ahead window: the HTTP/2 preface first,
/// then an HTTP/1 request line, else undetected. A rule that needs more
/// bytes than the window holds does not match.
pub open spec fn detect_spec(w: Seq<u8>) -> Option<Protocol> {
    if starts_with(w, h2_preface()) {
        Some(Protocol::Http2)
    } else if looks_like_http1(w) {
        Some(Protocol::Http1)
    } else {
        None
    }
}

/// Every recognized method is at least three bytes long and begins with an
/// uppercase ASCII letter; none begins with `PR`, as the preface does.
proof fn lemma_method_shape(i: int)
    requires
        0 <= i < N_METHODS,
    ensures
        method(i).len() >= 3,
        0x41 <= method(i)[0] <= 0x5a,
        !(method(i)[0] == 0x50u8 && method(i)[1] == 0x52u8),
{
}

/// A window that begins with the HTTP/2 preface is classified as HTTP/2,
/// whatever bytes follow the preface.
pub proof fn lemma_preface_is_http2(tail: Seq<u8>)
    ensures
        detect_spec(h2_preface() + tail) == Some(Protocol::Http2),
{
    let w = h2_preface() + tail;
    assert(w.subrange(0, h2_preface().len() as int) =~= h2_preface());
}

/// A window that begins with a recognized method, a space and a request
/// target is classified as HTTP/1, whatever bytes follow.
pub proof fn lemma_request_line_is_http1(i: int, target: Seq<u8>)
    requires
        0 <= i < N_METHODS,
        target.len() > 0,
        is_target_byte(target[0]),
    ensures
        detect_spec(method(i) + seq![SP] + target) == Some(Protocol::Http1),
{
    let m = method(i);
    let w = m + seq![SP] + target;
    lemma_method_shape(i);
    assert(w.subrange(0, m.len() as int) =~= m);
    assert(w[m.len() as int] == SP);
    assert(w[m.len() + 1int] == target[0]);
    assert(request_line_start(w, method(i)));
    assert(w[0] == m[0] && w[1] == m[1]);
    if starts_with(w, h2_preface()) {
        assert(w[0] == w.subrange(0, h2_preface().len() as int)[0]);
        assert(w[1] == w.subrange(0, h2_preface().len() as int)[1]);
    }
}

/// A window that is empty or does not begin with an uppercase ASCII letter
/// (random or non-textual bytes) is left undetected.
pub proof fn lemma_non_text_is_undetected(w: Seq<u8>)
    requires
        w.len() == 0 || !(0x41 <= w[0] <= 0x5a),
    ensures
        detect_spec(w) is None,
{
    if starts_with(w, h2_preface()) {
        assert(w[0] == w.subrange(0, h2_preface().len() as int)[0]);
    }
    if looks_like_http1(w) {
        let i = choose|i: int| 0 <= i < N_METHODS && #[trigger] request_line_start(w, method(i));
        lemma_method_shape(i);
        assert(w[0] == w.subrange(0, method(i).len() as int)[0]);
    }
}

fn h2_preface_bytes() -> (r: Vec<u8>)
    ensures
        r@ == h2_preface(),
{
    let r = vec![
        0x50u8, 0x52u8, 0x49u8, 0x20u8, 0x2au8, 0x20u8, 0x48u8, 0x54u8,  // PRI * HT
        0x54u8, 0x50u8, 0x2fu8, 0x32u8, 0x2eu8, 0x30u8,  // TP/2.0
        0x0du8, 0x0au8, 0x0du8, 0x0au8, 0x53u8, 0x4du8, 0x0du8, 0x0au8,  // \r\n\r\nSM\r\n
        0x0du8, 0x0au8,  // \r\n
    ];
    assert(r@ =~= h2_preface());
    r
}

fn method_token(i: usize) -> (r: Vec<u8>)
    requires
        i < N_METHODS,
    ensures
        r@ == method(i as int),
{
    let r = if i == 0 {
        vec![0x47u8, 0x45u8, 0x54u8]  // GET
    } else if i == 1 {
        vec![0x48u8, 0x45u8, 0x41u8, 0x44u8]  // HEAD
    } else if i == 2 {
        vec![0x50u8, 0x4fu8, 0x53u8, 0x54u8]  // POST
    } else if i == 3 {
        vec![0x50u8, 0x55u8, 0x54u8]  // PUT
    } else if i == 4 {
        vec![0x44u8, 0x45u8, 0x4cu8, 0x45u8, 0x54u8, 0x45u8]  // DELETE
    } else if i == 5 {
        vec![0x43u8, 0x4fu8, 0x4eu8, 0x4eu8, 0x45u8, 0x43u8, 0x54u8]  // CONNECT
    } else if i == 6 {
        vec![0x4fu8, 0x50u8, 0x54u8, 0x49u8, 0x4fu8, 0x4eu8, 0x53u8]  // OPTIONS
    } else if i == 7 {
        vec![0x54u8, 0x52u8, 0x41u8, 0x43u8, 0x45u8]  // TRACE
    } else {
        vec![0x50u8, 0x41u8, 0x54u8, 0x43u8, 0x48u8]  // PATCH
    };
    assert(r@ =~= method(i as int));
    r
}

/// Whether `w` begins with `p`.
pub fn has_prefix(w: &[u8], p: &Vec<u8>) -> (r: bool)
    ensures
        r == starts_with(w@, p@),
{
    if p.len() > w.len() {
        return false;
    }
    let mut i: usize = 0;
    while i < p.len()
        invariant
            i <= p.len(),
            p.len() <= w.len(),
            forall|j: int| 0 <= j < i ==> w@[j] == p@[j],
        decreases p.len() - i,
    {
        if w[i] != p[i] {
            assert(w@.subrange(0, p@.len() as int)[i as int] != p@[i as int]);
            return false;
        }
        i += 1;
    }
    assert(w@.subrange(0, p@.len() as int) =~= p@);
    true
}

fn request_line_start_at(w: &[u8], m: &Vec<u8>) -> (r: bool)
    ensures
        r == request_line_start(w@, m@),
{
    if !has_prefix(w, m) || w.len() - m.len() < 2 {
        return false;
    }
    let t = w[m.len() + 1];
    w[m.len()] == SP && 0x21 <= t && t <= 0x7e
}

/// Whether the window begins the way an HTTP/1 request line does.
pub fn is_http1_request_start(w: &[u8]) -> (r: bool)
    ensures
        r == looks_like_http1(w@),
{
    let mut i: usize = 0;
    while i < N_METHODS
        invariant
            i <= N_METHODS,
            forall|j: int| 0 <= j < i ==> !request_line_start(w@, #[trigger] method(j)),
        decreases N_METHODS - i,
    {
        let m = method_token(i);
        if request_line_start_at(w, &m) {
            return true;
        }
        i += 1;
    }
    false
}

impl Protocol {
    /// Classifies the read-ahead window `bytes`.
    pub fn detect(bytes: &[u8]) -> (r: Option<Protocol>)
        ensures
            r == detect_spec(bytes@),
            r == Some(Protocol::Http2) <==> starts_with(bytes@, h2_preface()),
            r == Some(Protocol::Http1) <==> (!starts_with(bytes@, h2_preface())
                && looks_like_http1(bytes@)),
    {
        let preface = h2_preface_bytes();
        if has_prefix(bytes, &preface) {
            return Some(Protocol::Http2);
        }
        if is_http1_request_start(bytes) {
            return Some(Protocol::Http1);
        }
        None
    }
}

} // verus!
