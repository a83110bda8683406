//! Scanning content for mention markers: `@name` names a user of this
//! server, `@name@domain` a user of the named server. A name or domain
//! is a maximal run of word bytes after the marker.

use vstd::prelude::*;

verus! {

/// The mention marker, the byte value of an at sign.
pub const MENTION_MARK: u8 = 64;

/// The bytes a mention name or domain is made of: ASCII letters,
/// digits, dot, hyphen and underscore.
pub open spec fn is_word(c: u8) -> bool {
    ||| (97 <= c && c <= 122)
    ||| (65 <= c && c <= 90)
    ||| (48 <= c && c <= 57)
    ||| c == 46
    ||| c == 45
    ||| c == 95
}

/// Exec check for [`is_word`].
pub fn is_word_byte(c: u8) -> (r: bool)
    ensures
        r == is_word(c),
{
    (97 <= c && c <= 122) || (65 <= c && c <= 90) || (48 <= c && c <= 57) || c == 46 || c == 45
        || c == 95
}

/// Where the run of word bytes starting at `i` ends: the first position
/// at or after `i` holding a non-word byte, or the end of the text.
pub open spec fn run_end(s: Seq<u8>, i: int) -> int
    decreases s.len() - i when 0 <= i <= s.len()
{
    if i >= s.len() || !is_word(s[i]) {
        i
    } else {
        run_end(s, i + 1)
    }
}

/// The end of a run lies between its start and the end of the text.
pub proof fn lemma_run_end_bounds(s: Seq<u8>, i: int)
    requires
        0 <= i <= s.len(),
    ensures
        i <= run_end(s, i) <= s.len(),
    decreases s.len() - i,
{
    if i < s.len() && is_word(s[i]) {
        lemma_run_end_bounds(s, i + 1);
    }
}

/// The mathematical value of a [`Mention`].
#[verifier::ext_equal]
pub struct MentionView {
    pub name: Seq<u8>,
    pub domain: Seq<u8>,
}

/// One mention found in content: a name, and the domain it was
/// qualified with, empty for a user of this server.
#[derive(Debug)]
pub struct Mention {
    pub name: Vec<u8>,
    pub domain: Vec<u8>,
}

impl View for Mention {
    type V = MentionView;

    open spec fn view(&self) -> MentionView {
        MentionView { name: self.name@, domain: self.domain@ }
    }
}

/// The values of a sequence of mentions.
pub open spec fn mention_views(s: Seq<Mention>) -> Seq<MentionView> {
    s.map_values(|m: Mention| m@)
}

/// The mentions of the text from position `i` on, in order: at a
/// marker followed by a name run, the mention is taken (with a domain
/// when a second marker and run follow at once) and scanning resumes
/// after it; everywhere else scanning moves one byte on.
pub open spec fn scan_from(s: Seq<u8>, i: int) -> Seq<MentionView>
    decreases s.len() - i when 0 <= i <= s.len() via scan_from_decreases
{
    if i >= s.len() {
        Seq::empty()
    } else if s[i] == MENTION_MARK && i + 1 < s.len() && is_word(s[i + 1]) {
        let ne = run_end(s, i + 1);
        if ne < s.len() && s[ne] == MENTION_MARK && ne + 1 < s.len() && is_word(s[ne + 1]) {
            let de = run_end(s, ne + 1);
            Seq::empty().push(
                MentionView { name: s.subrange(i + 1, ne), domain: s.subrange(ne + 1, de) },
            ) + scan_from(s, de)
        } else {
            Seq::empty().push(MentionView { name: s.subrange(i + 1, ne), domain: Seq::empty() })
                + scan_from(s, ne)
        }
    } else {
        scan_from(s, i + 1)
    }
}

#[via_fn]
proof fn scan_from_decreases(s: Seq<u8>, i: int) {
    if i < s.len() && s[i] == MENTION_MARK && i + 1 < s.len() && is_word(s[i + 1]) {
        lemma_run_end_bounds(s, i + 1);
        let ne = run_end(s, i + 1);
        if ne < s.len() && s[ne] == MENTION_MARK && ne + 1 < s.len() && is_word(s[ne + 1]) {
            lemma_run_end_bounds(s, ne + 1);
        }
    }
}

/// The mentions of a whole text.
pub open spec fn mentions_of(s: Seq<u8>) -> Seq<MentionView> {
    scan_from(s, 0)
}

/// Walks to the end of the run of word bytes starting at `from`.
fn run_to_end(text: &Vec<u8>, from: usize) -> (r: usize)
    requires
        from <= text@.len(),
    ensures
        r == run_end(text@, from as int),
        from <= r <= text@.len(),
{
    let n = text.len();
    let mut j: usize = from;
    while j < n && is_word_byte(text[j])
        invariant
            from <= j <= n,
            n == text@.len(),
            run_end(text@, from as int) == run_end(text@, j as int),
        decreases n - j,
    {
        j += 1;
    }
    j
}

/// Copies `text[from..to]`.
fn copy_range(text: &Vec<u8>, from: usize, to: usize) -> (r: Vec<u8>)
    requires
        from <= to <= text@.len(),
    ensures
        r@ == text@.subrange(from as int, to as int),
{
    let mut out: Vec<u8> = Vec::new();
    let mut j: usize = from;
    while j < to
        invariant
            from <= j <= to <= text@.len(),
            out@ == text@.subrange(from as int, j as int),
        decreases to - j,
    {
        out.push(text[j]);
        assert(out@ =~= text@.subrange(from as int, j as int + 1));
        j += 1;
    }
    out
}

/// Scans a text for mention markers and returns the mentions found, in
/// order of appearance.
#[verifier::loop_isolation(false)]
pub fn scrape_text_for_mentions(text: &Vec<u8>) -> (r: Vec<Mention>)
    ensures
        mention_views(r@) == mentions_of(text@),
{
    let n = text.len();
    let mut out: Vec<Mention> = Vec::new();
    let mut i: usize = 0;
    while i < n
        invariant
            0 <= i <= n,
            mentions_of(text@) == mention_views(out@) + scan_from(text@, i as int),
        decreases n - i,
    {
        let ghost out0 = out@;
        let ghost i0 = i as int;
        if text[i] == MENTION_MARK && i + 1 < n && is_word_byte(text[i + 1]) {
            let ne = run_to_end(text, i + 1);
            if ne < n && text[ne] == MENTION_MARK && ne + 1 < n && is_word_byte(text[ne + 1]) {
                let de = run_to_end(text, ne + 1);
                let name = copy_range(text, i + 1, ne);
                let domain = copy_range(text, ne + 1, de);
                out.push(Mention { name, domain });
                proof {
                    assert(mention_views(out@) =~= mention_views(out0).push(
                        MentionView {
                            name: text@.subrange(i0 + 1, ne as int),
                            domain: text@.subrange(ne as int + 1, de as int),
                        },
                    ));
                    assert(mention_views(out0) + scan_from(text@, i0) =~= mention_views(out@)
                        + scan_from(text@, de as int));
                }
                i = de;
            } else {
                let name = copy_range(text, i + 1, ne);
                out.push(Mention { name, domain: Vec::new() });
                proof {
                    assert(mention_views(out@) =~= mention_views(out0).push(
                        MentionView {
                            name: text@.subrange(i0 + 1, ne as int),
                            domain: Seq::empty(),
                        },
                    ));
                    assert(mention_views(out0) + scan_from(text@, i0) =~= mention_views(out@)
                        + scan_from(text@, ne as int));
                }
                i = ne;
            }
        } else {
            proof {
                assert(scan_from(text@, i0) == scan_from(text@, i0 + 1));
            }
            i += 1;
        }
    }
    proof {
        assert(scan_from(text@, n as int) =~= Seq::<MentionView>::empty());
        assert(mention_views(out@) + Seq::<MentionView>::empty() =~= mention_views(out@));
    }
    out
}

} // verus!
