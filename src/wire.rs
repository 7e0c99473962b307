//! The JSON text of an envelope, and reading it back.
//!
//! A page envelope is written `{"page":P,"site":null}` and a site envelope
//! `{"page":null,"site":S}`, where `P` and `S` are the texts of the
//! parameters. The absent slot is always present as an explicit `null`.
use vstd::prelude::*;
use crate::params::{is_object_text, PageScoreParameters, ScoreParameters, SiteScoreParameters};

verus! {

/// `{"page":`
pub open spec fn page_open() -> Seq<char> {
    seq!['{', '"', 'p', 'a', 'g', 'e', '"', ':']
}

/// `,"site":null}`
pub open spec fn site_null_close() -> Seq<char> {
    seq![',', '"', 's', 'i', 't', 'e', '"', ':', 'n', 'u', 'l', 'l', '}']
}

/// `{"page":null,"site":`
pub open spec fn page_null_site_open() -> Seq<char> {
    page_open() + seq!['n', 'u', 'l', 'l', ',', '"', 's', 'i', 't', 'e', '"', ':']
}

/// The text of an envelope whose filled slot is `page` when `is_page` holds
/// and `site` otherwise, with `payload` in that slot.
pub open spec fn frame(is_page: bool, payload: Seq<char>) -> Seq<char> {
    if is_page {
        page_open() + payload + site_null_close()
    } else {
        page_null_site_open() + payload + seq!['}']
    }
}

/// The text of an envelope.
pub open spec fn envelope_text(e: ScoreParameters) -> Seq<char> {
    frame(e is Page, e.payload())
}

/// Two envelopes with braced payloads have the same text only if they fill
/// the same slot with the same payload: reading a text back gives the
/// envelope that was written.
pub proof fn lemma_frame_injective(b1: bool, p1: Seq<char>, b2: bool, p2: Seq<char>)
    requires
        is_object_text(p1),
        is_object_text(p2),
        frame(b1, p1) == frame(b2, p2),
    ensures
        b1 == b2,
        p1 == p2,
{
    let t = frame(b1, p1);
    assert(page_open().len() == 8);
    assert(site_null_close().len() == 13);
    assert(page_null_site_open().len() == 20);
    if b1 != b2 {
        let (pp, ps) = if b1 { (p1, p2) } else { (p2, p1) };
        assert(frame(true, pp)[8] == pp[0]);
        assert(frame(false, ps)[8] == 'n');
    } else if b1 {
        assert(frame(b1, p1) == page_open() + p1 + site_null_close());
        assert(frame(b2, p2) == page_open() + p2 + site_null_close());
        assert(p1.len() == p2.len());
        assert(p1 =~= t.subrange(8, 8 + p1.len() as int));
        assert(p2 =~= t.subrange(8, 8 + p2.len() as int));
    } else {
        assert(frame(b1, p1) == page_null_site_open() + p1 + seq!['}']);
        assert(frame(b2, p2) == page_null_site_open() + p2 + seq!['}']);
        assert(p1.len() == p2.len());
        assert(p1 =~= t.subrange(20, 20 + p1.len() as int));
        assert(p2 =~= t.subrange(20, 20 + p2.len() as int));
    }
}

/// Reading back the text of an envelope gives an envelope that fills the
/// same slot with the same payload.
pub proof fn lemma_round_trip(e: ScoreParameters, r: ScoreParameters)
    requires
        is_object_text(e.payload()),
        is_object_text(r.payload()),
        envelope_text(r) == envelope_text(e),
    ensures
        r.page_slot() == e.page_slot(),
        r.site_slot() == e.site_slot(),
{
    lemma_frame_injective(r is Page, r.payload(), e is Page, e.payload());
}

/// Whether `pat` stands in `text` at char position `pos`.
fn text_at(text: &str, pos: usize, pat: &str) -> (r: bool)
    requires
        pos <= text@.len(),
    ensures
        r == (pos + pat@.len() <= text@.len() && text@.subrange(
            pos as int,
            pos + pat@.len(),
        ) == pat@),
{
    let n = text.unicode_len();
    let m = pat.unicode_len();
    if m > n - pos {
        return false;
    }
    let found = String::from_str(text.substring_char(pos, pos + m));
    let wanted = String::from_str(pat);
    found == wanted
}

/// The JSON text of an envelope.
pub fn to_json(e: &ScoreParameters) -> (r: String)
    ensures
        r@ == envelope_text(*e),
{
    proof {
        reveal_strlit("{\"page\":");
        reveal_strlit(",\"site\":null}");
        reveal_strlit("{\"page\":null,\"site\":");
        reveal_strlit("}");
    }
    match e {
        ScoreParameters::Page(p) => {
            let r = String::from_str("{\"page\":").concat(p.json()).concat(",\"site\":null}");
            assert(r@ =~= envelope_text(*e));
            r
        },
        ScoreParameters::Site(s) => {
            let r = String::from_str("{\"page\":null,\"site\":").concat(s.json()).concat("}");
            assert(r@ =~= envelope_text(*e));
            r
        },
    }
}

/// Reads an envelope back from its JSON text; `None` unless the text is the
/// text of some envelope.
pub fn from_json(text: &str) -> (r: Option<ScoreParameters>)
    ensures
        r matches Some(e) ==> envelope_text(e) == text@ && is_object_text(e.payload()),
        r is None ==> forall|b: bool, p: Seq<char>|
            is_object_text(p) ==> #[trigger] frame(b, p) != text@,
{
    proof {
        reveal_strlit("{\"page\":");
        reveal_strlit(",\"site\":null}");
        reveal_strlit("{\"page\":null,\"site\":");
    }
    assert("{\"page\":"@ =~= page_open());
    assert(",\"site\":null}"@ =~= site_null_close());
    assert("{\"page\":null,\"site\":"@ =~= page_null_site_open());
    let n = text.unicode_len();
    if n < 22 {
        assert forall|b: bool, p: Seq<char>| is_object_text(p) implies #[trigger] frame(b, p)
            != text@ by {
            assert(frame(b, p).len() >= 23);
        }
        return None;
    }
    if text_at(text, 0, "{\"page\":null,\"site\":") {
        if text.get_char(n - 1) == '}' {
            let inner = String::from_str(text.substring_char(20, n - 1));
            assert(text@.subrange(0, 20) =~= page_null_site_open());
            assert(text@ =~= text@.subrange(0, 20) + inner@ + seq!['}']);
            match SiteScoreParameters::from_json(inner) {
                Some(s) => {
                    return Some(ScoreParameters::Site(s));
                },
                None => {},
            }
        }
        assert forall|b: bool, p: Seq<char>| is_object_text(p) implies #[trigger] frame(b, p)
            != text@ by {
            if frame(b, p) == text@ {
                if b {
                    assert(frame(b, p)[8] == p[0]);
                    assert(text@[8] == 'n');
                } else {
                    assert(text@[n - 1] == '}');
                    assert(p =~= text@.subrange(20, n - 1));
                }
            }
        }
        return None;
    }
    if text_at(text, 0, "{\"page\":") && text_at(text, n - 13, ",\"site\":null}") {
        let inner = String::from_str(text.substring_char(8, n - 13));
        assert(text@.subrange(0, 8) =~= page_open());
        assert(text@.subrange(n - 13, n as int) =~= site_null_close());
        assert(text@ =~= text@.subrange(0, 8) + inner@ + text@.subrange(n - 13, n as int));
        match PageScoreParameters::from_json(inner) {
            Some(p) => {
                return Some(ScoreParameters::Page(p));
            },
            None => {},
        }
    }
    assert forall|b: bool, p: Seq<char>| is_object_text(p) implies #[trigger] frame(b, p)
        != text@ by {
        if frame(b, p) == text@ {
            if b {
                assert(frame(b, p) == page_open() + p + site_null_close());
                assert(text@.subrange(0, 8) =~= page_open());
                assert(text@.subrange(n - 13, n as int) =~= site_null_close());
                assert(p =~= text@.subrange(8, n - 13));
            } else {
                assert(frame(b, p) == page_null_site_open() + p + seq!['}']);
                assert(text@.subrange(0, 20) =~= page_null_site_open());
            }
        }
    }
    None
}

} // verus!
