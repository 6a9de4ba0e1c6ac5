//! The operator command sentence: a sub-verb and a free-form payload,
//! sent with the fixed `ff` checksum.
use vstd::prelude::*;

use crate::BodyParseError;
use crate::ascii::COMMA;
use crate::search::{find_byte_from, find_from, lemma_find_from};

verus! {

/// Decoded body: the sub-verb and the rest of the line, kept verbatim.
#[derive(Debug, PartialEq)]
pub enum Body {
    Get(Vec<u8>),
    SetCmd(Vec<u8>),
    Through(Vec<u8>),
    Undefined(Vec<u8>, Vec<u8>),
}

/// Spec-level shape of a command body, over byte sequences.
pub enum CmdView {
    Get(Seq<u8>),
    SetCmd(Seq<u8>),
    Through(Seq<u8>),
    Undefined(Seq<u8>, Seq<u8>),
}

impl View for Body {
    type V = CmdView;

    open spec fn view(&self) -> CmdView {
        match self {
            Body::Get(b) => CmdView::Get(b@),
            Body::SetCmd(b) => CmdView::SetCmd(b@),
            Body::Through(b) => CmdView::Through(b@),
            Body::Undefined(h, b) => CmdView::Undefined(h@, b@),
        }
    }
}

/// The bytes of `get`.
pub open spec fn verb_get() -> Seq<u8> {
    seq![103u8, 101u8, 116u8]
}

/// The bytes of `set`.
pub open spec fn verb_set() -> Seq<u8> {
    seq![115u8, 101u8, 116u8]
}

/// The bytes of `through`.
pub open spec fn verb_through() -> Seq<u8> {
    seq![116u8, 104u8, 114u8, 111u8, 117u8, 103u8, 104u8]
}

/// The command a sentence tail denotes: the part before the first
/// comma picks the sub-verb, the rest is the payload. A tail with no
/// comma has no sub-verb and is rejected.
#[verifier::opaque]
pub open spec fn spec_parse(s: Seq<u8>) -> Option<CmdView> {
    let i = find_from(s, COMMA, 0);
    if !(0 <= i < s.len()) {
        None
    } else {
        let head = s.subrange(0, i);
        let tail = s.subrange(i + 1, s.len() as int);
        if head == verb_get() {
            Some(CmdView::Get(tail))
        } else if head == verb_set() {
            Some(CmdView::SetCmd(tail))
        } else if head == verb_through() {
            Some(CmdView::Through(tail))
        } else {
            Some(CmdView::Undefined(head, tail))
        }
    }
}

impl Body {
    /// Decodes the sub-verb and payload of a sentence tail.
    pub fn from_bytes(s: &[u8]) -> (r: Result<Body, BodyParseError>)
        ensures
            r is Ok <==> spec_parse(s@) is Some,
            r matches Ok(b) ==> Some(b@) == spec_parse(s@),
            r matches Err(e) ==> (e matches BodyParseError::MissingField(nm) && nm@
                == "CMD:Type"@),
    {
        let n = s.len();
        let i = find_byte_from(s, n, COMMA, 0);
        proof {
            reveal(spec_parse);
            assert(s@.take(n as int) =~= s@);
            lemma_find_from(s@, COMMA, 0);
        }
        if i == n {
            return Err(BodyParseError::MissingField("CMD:Type"));
        }
        let head = vstd::slice::slice_subrange(s, 0, i);
        let tail = vstd::slice::slice_to_vec(vstd::slice::slice_subrange(s, i + 1, n));
        if head.len() == 3 && head[0] == 103 && head[1] == 101 && head[2] == 116 {
            proof {
                assert(head@ =~= verb_get());
            }
            Ok(Body::Get(tail))
        } else if head.len() == 3 && head[0] == 115 && head[1] == 101 && head[2] == 116 {
            proof {
                assert(head@ =~= verb_set());
            }
            Ok(Body::SetCmd(tail))
        } else if head.len() == 7 && head[0] == 116 && head[1] == 104 && head[2] == 114 && head[3]
            == 111 && head[4] == 117 && head[5] == 103 && head[6] == 104 {
            proof {
                assert(head@ =~= verb_through());
            }
            Ok(Body::Through(tail))
        } else {
            proof {
                assert(head@ != verb_get() && head@ != verb_set() && head@ != verb_through());
            }
            Ok(Body::Undefined(vstd::slice::slice_to_vec(head), tail))
        }
    }

    /// Re-serializes the command as a full sentence line, terminator
    /// included.
    pub fn to_line(&self) -> (r: Vec<u8>)
        ensures
            r@ == match self@ {
                CmdView::Get(b) => spec_fmt_line(verb_get(), b),
                CmdView::SetCmd(b) => spec_fmt_line(verb_set(), b),
                CmdView::Through(b) => spec_fmt_line(verb_through(), b),
                CmdView::Undefined(h, b) => spec_fmt_line(h, b),
            },
    {
        match self {
            Body::Get(b) => {
                let mut head: Vec<u8> = Vec::new();
                head.push(103);
                head.push(101);
                head.push(116);
                proof {
                    assert(head@ =~= verb_get());
                }
                fmt_line(head.as_slice(), b.as_slice())
            },
            Body::SetCmd(b) => {
                let mut head: Vec<u8> = Vec::new();
                head.push(115);
                head.push(101);
                head.push(116);
                proof {
                    assert(head@ =~= verb_set());
                }
                fmt_line(head.as_slice(), b.as_slice())
            },
            Body::Through(b) => {
                let mut head: Vec<u8> = Vec::new();
                head.push(116);
                head.push(104);
                head.push(114);
                head.push(111);
                head.push(117);
                head.push(103);
                head.push(104);
                proof {
                    assert(head@ =~= verb_through());
                }
                fmt_line(head.as_slice(), b.as_slice())
            },
            Body::Undefined(h, b) => fmt_line(h.as_slice(), b.as_slice()),
        }
    }
}

/// A command line: `$cmd,` + sub-verb + `,` + payload + `*ff` and the
/// line terminator.
pub open spec fn spec_fmt_line(head: Seq<u8>, body: Seq<u8>) -> Seq<u8> {
    seq![36u8, 99u8, 109u8, 100u8, 44u8] + head + seq![44u8] + body + seq![
        42u8,
        102u8,
        102u8,
        13u8,
        10u8,
    ]
}

/// Builds a command line around a sub-verb and payload.
fn fmt_line(head: &[u8], body: &[u8]) -> (r: Vec<u8>)
    ensures
        r@ == spec_fmt_line(head@, body@),
{
    let mut r: Vec<u8> = Vec::new();
    r.push(36);
    r.push(99);
    r.push(109);
    r.push(100);
    r.push(44);
    r.extend_from_slice(head);
    r.push(44);
    r.extend_from_slice(body);
    r.push(42);
    r.push(102);
    r.push(102);
    r.push(13);
    r.push(10);
    proof {
        assert(r@ =~= spec_fmt_line(head@, body@));
    }
    r
}

} // verus!
