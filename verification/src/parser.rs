//! The incremental framer: a fixed-capacity buffer fed by short
//! reads, scanned for checksum-valid sentences.
use vstd::prelude::*;

use crate::NmeaLine;
use crate::ascii::{DOLLAR, STAR};
use crate::search::{find_byte_from, find_from, lemma_find_from, lemma_find_from_at};

verus! {

/// The scan cursors: `r` rests on a frame-start marker candidate,
/// `c` on a frame-end marker candidate.
struct Cursors {
    r: usize,
    c: usize,
}

impl Cursors {
    /// Advances `r` to the next `$` at or after it, then `c` to the
    /// next `*` after `r` (resuming from its old place when that is
    /// further): true when both markers were found in `buf`.
    fn move_on(&mut self, buf: &[u8]) -> (found: bool)
        ensures
            ({
                let s = buf@;
                let r1 = find_from(s, DOLLAR, old(self).r as int);
                &&& final(self).r == r1
                &&& (r1 == s.len() ==> final(self).c == old(self).c && !found)
                &&& (r1 < s.len() ==> final(self).c == find_from(
                    s,
                    STAR,
                    if r1 >= old(self).c {
                        r1 + 1
                    } else {
                        old(self).c as int
                    },
                ) && (found <==> final(self).c < s.len()))
            }),
    {
        let n = buf.len();
        proof {
            assert(buf@.take(n as int) =~= buf@);
        }
        let r1 = find_byte_from(buf, n, DOLLAR, self.r);
        self.r = r1;
        if r1 >= n {
            proof {
                lemma_find_from(buf@, DOLLAR, old(self).r as int);
            }
            return false;
        }
        if self.r >= self.c {
            self.c = self.r + 1;
        }
        let c1 = find_byte_from(buf, n, STAR, self.c);
        self.c = c1;
        c1 < n
    }

    /// Jumps both cursors past the frame that ends at `c` and its two
    /// checksum digits; the end cursor catches up on the next scan.
    fn move_next(&mut self)
        requires
            old(self).c + 3 <= usize::MAX,
        ensures
            final(self).r == old(self).c + 3,
            final(self).c == old(self).c + 3,
    {
        self.r = self.c + 3;
        self.c = self.r;
    }

    /// Re-bases both cursors after compaction dropped the `r` bytes
    /// in front of them.
    fn reset(&mut self)
        ensures
            final(self).r == 0,
            final(self).c == if old(self).c > old(self).r {
                old(self).c - old(self).r
            } else {
                0
            },
    {
        if self.c > self.r {
            self.c = self.c - self.r;
        } else {
            self.c = 0;
        }
        self.r = 0;
    }

    /// Whether the checksum digits after `c` spell the XOR of the
    /// bytes strictly between the two markers.
    fn xor_check(&self, buf: &[u8]) -> (r: bool)
        requires
            self.r < self.c,
            self.c + 3 <= buf@.len(),
        ensures
            r <==> crate::hex::spec_parse_cs(buf@.subrange(self.c as int, self.c + 3)) == Some(
                crate::hex::xor_all(buf@.subrange(self.r + 1, self.c as int)),
            ),
    {
        let n = buf.len();
        let x = crate::hex::xor_range(buf, self.r + 1, self.c);
        let cs = crate::hex::parse_cs(vstd::slice::slice_subrange(buf, self.c, n));
        proof {
            let t = buf@.subrange(self.c as int, n as int);
            let u = buf@.subrange(self.c as int, self.c + 3);
            assert(t.len() >= 3 && u[1] == t[1] && u[2] == t[2]);
            assert(crate::hex::spec_parse_cs(u) == crate::hex::spec_parse_cs(t));
        }
        match cs {
            Some(v) => v == x,
            None => false,
        }
    }

    /// Length of the checked span between the markers.
    fn len(&self) -> (n: usize)
        requires
            self.r < self.c,
        ensures
            n == self.c - self.r - 1,
    {
        self.c - self.r - 1
    }
}

/// The incremental sentence parser: a buffer of capacity `LEN`, a
/// write position, and the scan cursors.
pub struct NmeaParser<const LEN: usize> {
    buf: Vec<u8>,
    cursor_r: Cursors,
    cursor_w: usize,
}

impl<const LEN: usize> NmeaParser<LEN> {
    /// The bytes received and not yet consumed.
    pub closed spec fn contents(&self) -> Seq<u8> {
        self.buf@.take(self.cursor_w as int)
    }

    /// Where the scan for a frame-end marker resumes.
    pub closed spec fn scan_mark(&self) -> int {
        self.cursor_r.c as int
    }

    /// The parser's invariant: a buffer of exactly `LEN` bytes, the
    /// write position inside it, and the start cursor rewound.
    pub closed spec fn wf(&self) -> bool {
        &&& self.buf@.len() == LEN
        &&& self.cursor_w <= LEN
        &&& self.cursor_r.r == 0
    }

    /// How many bytes fit in the write window.
    pub fn as_buf(&self) -> (n: usize)
        requires
            self.wf(),
        ensures
            n == LEN - self.contents().len(),
    {
        LEN - self.cursor_w
    }

    /// Delivers received bytes into the write window.
    pub fn notify_received(&mut self, data: &[u8])
        requires
            old(self).wf(),
            data@.len() <= LEN - old(self).contents().len(),
        ensures
            final(self).wf(),
            final(self).contents() == old(self).contents() + data@,
            final(self).scan_mark() == old(self).scan_mark(),
    {
        let n = data.len();
        let w = self.cursor_w;
        for i in 0..n
            invariant
                self.buf@.len() == LEN,
                self.cursor_w == w,
                w + n <= LEN,
                self.cursor_r.r == old(self).cursor_r.r,
                self.cursor_r.c == old(self).cursor_r.c,
                forall|j: int| 0 <= j < w ==> self.buf@[j] == old(self).buf@[j],
                forall|j: int| 0 <= j < i ==> self.buf@[w + j] == data@[j],
        {
            self.buf[w + i] = data[i];
        }
        self.cursor_w = w + n;
        proof {
            assert(self.contents() =~= old(self).contents() + data@);
        }
    }
}

impl<const LEN: usize> NmeaParser<LEN> {
    /// Attempts to extract one validated sentence: `Some` holds the
    /// decoded line and its checksum byte; `None` means nothing
    /// extractable yet. Either way the bytes in front of the final
    /// start cursor are consumed and the rest compacted to the
    /// buffer's front, exactly as [`spec_scan`] says.
    pub fn next(&mut self) -> (r: Option<(NmeaLine, u8)>)
        requires
            old(self).wf(),
        ensures
            final(self).wf(),
            ({
                let out = spec_scan(old(self).contents(), LEN as int, 0, old(self).scan_mark());
                &&& (match (r, out.found) {
                    (Some(p), Some(q)) => p.0@ == q.0 && p.1 == q.1,
                    (None, None) => true,
                    _ => false,
                })
                &&& final(self).contents() == old(self).contents().subrange(
                    out.r_end,
                    old(self).contents().len() as int,
                )
                &&& final(self).scan_mark() == if out.c_end > out.r_end {
                    out.c_end - out.r_end
                } else {
                    0
                }
            }),
    {
        let w = self.cursor_w;
        let ghost s = old(self).contents();
        let ghost cap = LEN as int;
        let ghost out = spec_scan(s, cap, 0, old(self).scan_mark());
        let bufs = vstd::slice::slice_subrange(self.buf.as_slice(), 0, w);
        proof {
            assert(bufs@ =~= s);
        }
        let mut result: Option<(NmeaLine, u8)> = None;
        #[verifier::loop_isolation(true)]
        loop
            invariant_except_break
                result is None,
                spec_scan(s, cap, self.cursor_r.r as int, self.cursor_r.c as int) == out,
            invariant
                self.buf@ == old(self).buf@,
                self.cursor_w == w,
                self.cursor_r.r <= w,
                w <= LEN,
                self.buf@.len() == LEN,
                bufs@ == s,
                s.len() == w,
                cap == LEN as int,
            ensures
                self.buf@ == old(self).buf@,
                self.cursor_w == w,
                self.cursor_r.r <= w,
                self.cursor_r.r == out.r_end,
                self.cursor_r.c == out.c_end,
                (match (result, out.found) {
                    (Some(p), Some(q)) => p.0@ == q.0 && p.1 == q.1,
                    (None, None) => true,
                    _ => false,
                }),
            decreases w + 1 - self.cursor_r.r,
        {
            let ghost r_e = self.cursor_r.r as int;
            let ghost c_e = self.cursor_r.c as int;
            proof {
                lemma_find_from(s, DOLLAR, r_e);
            }
            let found = self.cursor_r.move_on(bufs);
            proof {
                let r1g = find_from(s, DOLLAR, r_e);
                assert(self.cursor_r.r == r1g);
                assert(r_e <= r1g <= s.len());
                if r1g < s.len() {
                    let c1g = if r1g >= c_e {
                        r1g + 1
                    } else {
                        c_e
                    };
                    lemma_find_from(s, STAR, c1g);
                    assert(self.cursor_r.c == find_from(s, STAR, c1g));
                    assert(r1g < self.cursor_r.c <= s.len());
                    assert(found <==> self.cursor_r.c < s.len());
                } else {
                    assert(self.cursor_r.c == c_e);
                    assert(!found);
                }
            }
            if !found || w - self.cursor_r.c < 3 {
                if self.cursor_r.r == 0 && w == LEN && 0 < w {
                    self.cursor_r.r = 1;
                } else {
                    proof {
                        let r1g = find_from(s, DOLLAR, r_e);
                        if r1g == s.len() {
                            assert(out == ScanOutcome {
                                found: None::<(crate::LineView, u8)>,
                                r_end: r1g,
                                c_end: c_e,
                            });
                        } else {
                            assert(out == ScanOutcome {
                                found: None::<(crate::LineView, u8)>,
                                r_end: r1g,
                                c_end: self.cursor_r.c as int,
                            });
                        }
                    }
                    break;
                }
            } else {
                let r1 = self.cursor_r.r;
                let c2 = self.cursor_r.c;
                let ghost interior = s.subrange(r1 + 1, c2 as int);
                let is_cmd = self.cursor_r.len() >= 3 && bufs[r1 + 1] == 99 && bufs[r1 + 2] == 109
                    && bufs[r1 + 3] == 100;
                proof {
                    if is_cmd {
                        assert(interior[0] == s[r1 + 1] && interior[1] == s[r1 + 2] && interior[2]
                            == s[r1 + 3]);
                    }
                    if c2 - r1 - 1 >= 3 {
                        assert(bufs@[r1 + 1] == interior[0] && bufs@[r1 + 2] == interior[1]
                            && bufs@[r1 + 3] == interior[2]);
                    }
                }
                let accepted = if is_cmd {
                    bufs[c2 + 1] == 102 && bufs[c2 + 2] == 102
                } else {
                    self.cursor_r.xor_check(bufs)
                };
                let mut done = false;
                if accepted {
                    let csopt = crate::hex::parse_cs(
                        vstd::slice::slice_subrange(bufs, c2, c2 + 3),
                    );
                    proof {
                        assert(bufs@.subrange(c2 as int, c2 + 3) =~= s.subrange(c2 as int, c2 + 3));
                        if is_cmd {
                            assert(s[c2 + 1] == 102 && s[c2 + 2] == 102);
                            assert(crate::hex::hex_digit_val(102) == Some(15u8));
                        }
                        assert(csopt is Some);
                    }
                    let cs = match csopt {
                        Some(v) => v,
                        None => 0,
                    };
                    let interior_slice = vstd::slice::slice_subrange(bufs, r1 + 1, c2);
                    proof {
                        assert(interior_slice@ =~= interior);
                    }
                    match NmeaLine::from_bytes(interior_slice) {
                        Ok(line) => {
                            self.cursor_r.move_next();
                            proof {
                                lemma_find_from(s, DOLLAR, c2 + 3);
                            }
                            let _ = self.cursor_r.move_on(bufs);
                            result = Some((line, cs));
                            done = true;
                        },
                        Err(_) => {
                            self.cursor_r.move_next();
                        },
                    }
                } else {
                    self.cursor_r.move_next();
                }
                if done {
                    break;
                }
            }
        }
        let r_end = self.cursor_r.r;
        let ghost bufstart = self.buf@;
        if 1 <= r_end && r_end < w {
            let cnt = w - r_end;
            for i in 0..cnt
                invariant
                    self.buf@.len() == LEN,
                    r_end + cnt <= w <= LEN,
                    1 <= r_end,
                    self.cursor_w == w,
                    self.cursor_r.r == r_end,
                    self.cursor_r.c == out.c_end,
                    forall|j: int| i <= j < LEN ==> self.buf@[j] == bufstart[j],
                    forall|j: int| 0 <= j < i ==> self.buf@[j] == bufstart[r_end + j],
            {
                let b = self.buf[r_end + i];
                self.buf[i] = b;
            }
        }
        self.cursor_w = w - r_end;
        self.cursor_r.reset();
        proof {
            assert(self.contents() =~= s.subrange(out.r_end, s.len() as int));
        }
        result
    }
}

/// What one pull yields, and where the two cursors rest afterwards,
/// relative to the unread bytes scanned.
pub struct ScanOutcome {
    pub found: Option<(crate::LineView, u8)>,
    pub r_end: int,
    pub c_end: int,
}

/// One pull of the scanner over the unread bytes `s` of a buffer of
/// capacity `cap`, starting with the cursors at `r` and `c`: find a
/// `$`, pair it with the next `*`, accept the frame when its two
/// checksum digits match (the fixed `ff` for the command family, the
/// XOR of the bytes between the markers otherwise) and its interior
/// decodes, and otherwise skip past it and search on. A full buffer
/// whose first byte starts an incomplete frame drops that byte, so
/// garbage cannot stall the stream.
pub open spec fn spec_scan(s: Seq<u8>, cap: int, r: int, c: int) -> ScanOutcome
    decreases s.len() + 1 - r,
    via spec_scan_decreases

{
    let w = s.len() as int;
    let r1 = find_from(s, DOLLAR, r);
    if r1 == w {
        ScanOutcome { found: None, r_end: r1, c_end: c }
    } else {
        let c1 = if r1 >= c {
            r1 + 1
        } else {
            c
        };
        let c2 = find_from(s, STAR, c1);
        if c2 == w || w < c2 + 3 {
            if r <= 0 && r1 == 0 && w == cap && 0 < w {
                spec_scan(s, cap, 1, c2)
            } else {
                ScanOutcome { found: None, r_end: r1, c_end: c2 }
            }
        } else {
            let interior = s.subrange(r1 + 1, c2);
            let is_cmd = c2 - r1 - 1 >= 3 && interior[0] == 99 && interior[1] == 109
                && interior[2] == 100;
            let accepted = if is_cmd {
                s[c2 + 1] == 102 && s[c2 + 2] == 102
            } else {
                crate::hex::spec_parse_cs(s.subrange(c2, c2 + 3)) == Some(
                    crate::hex::xor_all(interior),
                )
            };
            if accepted {
                match crate::spec_parse_line(interior) {
                    Some(l) => {
                        let cs = crate::hex::spec_parse_cs(s.subrange(c2, c2 + 3))->0;
                        let r3 = find_from(s, DOLLAR, c2 + 3);
                        let c4 = if r3 == w {
                            c2 + 3
                        } else {
                            find_from(s, STAR, r3 + 1)
                        };
                        ScanOutcome { found: Some((l, cs)), r_end: r3, c_end: c4 }
                    },
                    None => spec_scan(s, cap, c2 + 3, c2 + 3),
                }
            } else {
                spec_scan(s, cap, c2 + 3, c2 + 3)
            }
        }
    }
}

/// A buffer fed entirely with bytes that never include a frame-start
/// marker yields nothing extractable, and the pull discards every one
/// of those bytes: memory use stays bounded and the parser is ready
/// for fresh data, with no overflow and no stall.
pub proof fn lemma_garbage_drained(s: Seq<u8>, cap: int, c: int)
    requires
        forall|m: int| 0 <= m < s.len() ==> #[trigger] s[m] != DOLLAR,
    ensures
        spec_scan(s, cap, 0, c) == (ScanOutcome {
            found: None::<(crate::LineView, u8)>,
            r_end: s.len() as int,
            c_end: c,
        }),
{
    lemma_find_from(s, DOLLAR, 0);
    assert(find_from(s, DOLLAR, 0) == s.len());
}

/// Success is owed on clean input: a buffer holding exactly one
/// well-formed sentence whose checksum digits spell the XOR of its
/// interior, and whose interior decodes, yields that decoded message
/// and checksum in one pull, with every byte of the sentence
/// consumed.
pub proof fn lemma_single_sentence(
    i: Seq<u8>,
    y1: u8,
    y2: u8,
    l: crate::LineView,
    cap: int,
)
    requires
        forall|m: int| 0 <= m < i.len() ==> #[trigger] i[m] != STAR,
        !(i.len() >= 3 && i[0] == 99 && i[1] == 109 && i[2] == 100),
        crate::hex::spec_parse_cs(seq![STAR, y1, y2]) == Some(crate::hex::xor_all(i)),
        crate::spec_parse_line(i) == Some(l),
    ensures
        ({
            let f = seq![DOLLAR] + i + seq![STAR, y1, y2];
            spec_scan(f, cap, 0, 0) == (ScanOutcome {
                found: Some((l, crate::hex::spec_parse_cs(seq![STAR, y1, y2])->0)),
                r_end: f.len() as int,
                c_end: f.len() as int,
            })
        }),
{
    let d = seq![STAR, y1, y2];
    let f = seq![DOLLAR] + i + d;
    let n = i.len() as int;
    let w = n + 4;
    assert(f.len() == w);
    assert(f[0] == DOLLAR);
    assert(forall|m: int| 1 <= m < n + 1 ==> f[m] == i[m - 1]);
    assert(f[n + 1] == STAR && f[n + 2] == y1 && f[n + 3] == y2);
    assert(find_from(f, DOLLAR, 0) == 0);
    lemma_find_from_at(f, STAR, 1, n + 1);
    assert(f.subrange(1, n + 1) =~= i);
    assert(f.subrange(n + 1, n + 4) =~= d);
    lemma_find_from(f, DOLLAR, n + 4);
}

/// Single-bit corruption inside one sentence causes exactly that
/// sentence to be skipped: in a buffer holding the corrupted sentence
/// followed by a well-formed one, a pull still yields the second
/// sentence's message and checksum. The flipped interior byte must
/// not spell a frame marker, and neither sentence may belong to the
/// fixed-checksum command family, whose literal digits cannot detect
/// corruption.
pub proof fn lemma_corrupt_sentence_skipped(
    i1: Seq<u8>,
    x1: u8,
    x2: u8,
    k: int,
    mask: u8,
    i2: Seq<u8>,
    y1: u8,
    y2: u8,
    l: crate::LineView,
    cap: int,
)
    requires
        0 <= k < i1.len(),
        mask != 0,
        crate::hex::spec_parse_cs(seq![STAR, x1, x2]) == Some(crate::hex::xor_all(i1)),
        forall|m: int|
            0 <= m < i1.len() ==> #[trigger] i1.update(k, (i1[k] ^ mask) as u8)[m] != DOLLAR
                && i1.update(k, (i1[k] ^ mask) as u8)[m] != STAR,
        !(i1.len() >= 3 && i1.update(k, (i1[k] ^ mask) as u8)[0] == 99 && i1.update(
            k,
            (i1[k] ^ mask) as u8,
        )[1] == 109 && i1.update(k, (i1[k] ^ mask) as u8)[2] == 100),
        forall|m: int| 0 <= m < i2.len() ==> #[trigger] i2[m] != STAR,
        !(i2.len() >= 3 && i2[0] == 99 && i2[1] == 109 && i2[2] == 100),
        crate::hex::spec_parse_cs(seq![STAR, y1, y2]) == Some(crate::hex::xor_all(i2)),
        crate::spec_parse_line(i2) == Some(l),
    ensures
        ({
            let j1 = i1.update(k, (i1[k] ^ mask) as u8);
            let f = seq![DOLLAR] + j1 + seq![STAR, x1, x2] + seq![DOLLAR] + i2 + seq![
                STAR,
                y1,
                y2,
            ];
            spec_scan(f, cap, 0, 0).found == Some(
                (l, crate::hex::spec_parse_cs(seq![STAR, y1, y2])->0),
            )
        }),
{
    let j1 = i1.update(k, (i1[k] ^ mask) as u8);
    let d1 = seq![STAR, x1, x2];
    let d2 = seq![STAR, y1, y2];
    let f = seq![DOLLAR] + j1 + d1 + seq![DOLLAR] + i2 + d2;
    let n1 = i1.len() as int;
    let n2 = i2.len() as int;
    let w = n1 + n2 + 8;
    assert(f.len() == w);
    assert(f[0] == DOLLAR);
    assert(forall|m: int| 1 <= m < n1 + 1 ==> f[m] == j1[m - 1]);
    assert(f[n1 + 1] == STAR && f[n1 + 2] == x1 && f[n1 + 3] == x2);
    assert(f[n1 + 4] == DOLLAR);
    assert(forall|m: int| n1 + 5 <= m < n1 + n2 + 5 ==> f[m] == i2[m - n1 - 5]);
    assert(f[n1 + n2 + 5] == STAR && f[n1 + n2 + 6] == y1 && f[n1 + n2 + 7] == y2);

    // the corrupted frame is found first
    assert(find_from(f, DOLLAR, 0) == 0);
    lemma_find_from_at(f, STAR, 1, n1 + 1);
    let c2 = n1 + 1;
    assert(f.subrange(1, c2) =~= j1);
    assert(f.subrange(c2, c2 + 3) =~= d1);

    // its checksum no longer matches: the flip moved the XOR
    crate::hex::lemma_xor_single_flip(i1, k, mask);
    assert(crate::hex::xor_all(j1) != crate::hex::xor_all(i1));
    assert(crate::hex::spec_parse_cs(f.subrange(c2, c2 + 3)) != Some(
        crate::hex::xor_all(f.subrange(1, c2)),
    ));
    assert(spec_scan(f, cap, 0, 0) == spec_scan(f, cap, c2 + 3, c2 + 3));

    // the scan resumes at the second frame and accepts it
    assert(find_from(f, DOLLAR, n1 + 4) == n1 + 4);
    lemma_find_from_at(f, STAR, n1 + 5, n1 + n2 + 5);
    let c2b = n1 + n2 + 5;
    assert(f.subrange(n1 + 5, c2b) =~= i2);
    assert(f.subrange(c2b, c2b + 3) =~= d2);
    assert(spec_scan(f, cap, c2 + 3, c2 + 3).found == Some(
        (l, crate::hex::spec_parse_cs(d2)->0),
    ));
}

#[via_fn]
proof fn spec_scan_decreases(s: Seq<u8>, cap: int, r: int, c: int) {
    let r0 = if r < 0 {
        0
    } else {
        r
    };
    lemma_find_from(s, DOLLAR, r0);
    let r1 = find_from(s, DOLLAR, r);
    if r1 < s.len() {
        let c1 = if r1 >= c {
            r1 + 1
        } else {
            c
        };
        if c1 >= 0 {
            lemma_find_from(s, STAR, c1);
        }
    }
}

impl<const LEN: usize> Default for NmeaParser<LEN> {
    /// An empty parser: a zeroed buffer and all positions at the
    /// front.
    fn default() -> (r: Self)
        ensures
            r.wf(),
            r.contents() == Seq::<u8>::empty(),
            r.scan_mark() == 0,
    {
        let r = NmeaParser { buf: vec![0u8; LEN], cursor_r: Cursors { r: 0, c: 0 }, cursor_w: 0 };
        proof {
            assert(r.contents() =~= Seq::<u8>::empty());
        }
        r
    }
}

} // verus!
