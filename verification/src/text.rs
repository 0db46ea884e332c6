//! Line endings of the text given to Win32 controls: a lone line feed is
//! sent as a carriage return and a line feed, and read back as a line feed.

use vstd::prelude::*;
use vstd::std_specs::iter::IteratorSpec;

verus! {

broadcast use vstd::string::group_string_axioms;

/// The text with a carriage return put before each line feed that does not
/// follow one already.
pub open spec fn spec_fix_crlf(s: Seq<char>) -> Seq<char>
    decreases s.len(),
{
    if s.len() == 0 {
        Seq::<char>::empty()
    } else {
        let init = s.drop_last();
        if s.last() == '\n' && (init.len() == 0 || init.last() != '\r') {
            spec_fix_crlf(init) + seq!['\r', '\n']
        } else {
            spec_fix_crlf(init).push(s.last())
        }
    }
}

/// The text with each carriage return and line feed pair made a line feed.
pub open spec fn spec_crlf_to_lf(s: Seq<char>) -> Seq<char>
    decreases s.len(),
{
    if s.len() == 0 {
        Seq::<char>::empty()
    } else if s.len() >= 2 && s.last() == '\n' && s[s.len() - 2] == '\r' {
        spec_crlf_to_lf(s.drop_last().drop_last()).push('\n')
    } else {
        spec_crlf_to_lf(s.drop_last()).push(s.last())
    }
}

/// Whether a carriage return stands right before a line feed in `s`.
pub open spec fn has_crlf(s: Seq<char>) -> bool {
    exists|i: int| 0 <= i < s.len() - 1 && #[trigger] s[i] == '\r' && s[i + 1] == '\n'
}

/// Whether every line feed of `s` follows a carriage return.
pub open spec fn all_lf_after_cr(s: Seq<char>) -> bool {
    forall|i: int| 0 <= i < s.len() && #[trigger] s[i] == '\n' ==> i > 0 && s[i - 1] == '\r'
}

/// The text as a Win32 control takes it: a carriage return is put before
/// each line feed that does not follow one already.
pub fn fix_crlf(s: &str) -> (r: String)
    ensures
        r@ == spec_fix_crlf(s@),
{
    proof {
        reveal_strlit("\r");
    }
    let mut r = String::new();
    let mut start: usize = 0;
    let mut prev: char = '\0';
    let mut i: usize = 0;
    let n: usize = s.unicode_len();
    let mut it = s.chars();
    proof {
        assert(s@.skip(0) =~= s@);
    }
    loop
        invariant
            it.remaining() == s@.skip(i as int),
            i <= s@.len(),
            s@.len() == n,
            start <= i,
            r@ + s@.subrange(start as int, i as int) == spec_fix_crlf(s@.take(i as int)),
            i == 0 ==> prev == '\0',
            i > 0 ==> prev == s@[i - 1],
            "\r"@ == seq!['\r'],
            it.obeys_prophetic_iter_laws(),
        ensures
            i == s@.len(),
        decreases s@.len() - i,
    {
        let next = it.next();
        match next {
            None => {
                proof {
                    assert(s@.skip(i as int).len() == 0);
                    assert(s@.take(i as int) =~= s@);
                }
                break ;
            },
            Some(c) => {
                proof {
                    assert(s@.skip(i as int)[0] == s@[i as int]);
                    assert(s@.skip(i as int).drop_first() =~= s@.skip(i + 1));
                    assert(s@.take(i + 1).drop_last() =~= s@.take(i as int));
                }
                if c == '\n' && prev != '\r' {
                    let piece = s.substring_char(start, i);
                    r.append(piece);
                    r.append("\r");
                    proof {
                        assert(r@ + s@.subrange(i as int, i + 1) =~= spec_fix_crlf(
                            s@.take(i as int),
                        ) + seq!['\r', '\n']);
                    }
                    start = i;
                } else {
                    proof {
                        assert(r@ + s@.subrange(start as int, i + 1) =~= (r@ + s@.subrange(
                            start as int,
                            i as int,
                        )).push(c));
                    }
                }
                prev = c;
                i = i + 1;
            },
        }
    }
    let piece = s.substring_char(start, i);
    r.append(piece);
    r
}

/// The text as read back from a Win32 control: each carriage return and line
/// feed pair becomes a line feed.
pub fn crlf_to_lf(s: &str) -> (r: String)
    ensures
        r@ == spec_crlf_to_lf(s@),
{
    let mut r = String::new();
    let mut start: usize = 0;
    let mut prev: char = '\0';
    let mut i: usize = 0;
    let n: usize = s.unicode_len();
    let mut it = s.chars();
    proof {
        assert(s@.skip(0) =~= s@);
    }
    loop
        invariant
            it.remaining() == s@.skip(i as int),
            i <= s@.len(),
            s@.len() == n,
            start <= i,
            r@ + s@.subrange(start as int, i as int) == spec_crlf_to_lf(s@.take(i as int)),
            i == 0 ==> prev == '\0',
            i > 0 ==> prev == s@[i - 1],
            start == i ==> i == 0 || s@[i - 1] != '\r',
            it.obeys_prophetic_iter_laws(),
        ensures
            i == s@.len(),
        decreases s@.len() - i,
    {
        let next = it.next();
        match next {
            None => {
                proof {
                    assert(s@.skip(i as int).len() == 0);
                    assert(s@.take(i as int) =~= s@);
                }
                break ;
            },
            Some(c) => {
                proof {
                    assert(s@.skip(i as int)[0] == s@[i as int]);
                    assert(s@.skip(i as int).drop_first() =~= s@.skip(i + 1));
                    assert(s@.take(i + 1).drop_last() =~= s@.take(i as int));
                }
                if c == '\n' && prev == '\r' {
                    proof {
                        let t = s@.take(i as int);
                        assert(s@.take(i + 1).drop_last().drop_last() =~= t.drop_last());
                        assert(t.last() == '\r');
                        assert(!(t.len() >= 2 && t.last() == '\n'));
                        assert(spec_crlf_to_lf(t) == spec_crlf_to_lf(t.drop_last()).push('\r'));
                        assert(r@ + s@.subrange(start as int, i - 1) =~= (r@ + s@.subrange(
                            start as int,
                            i as int,
                        )).drop_last());
                    }
                    let piece = s.substring_char(start, i - 1);
                    r.append(piece);
                    proof {
                        assert(r@ + s@.subrange(i as int, i + 1) =~= spec_crlf_to_lf(
                            s@.take(i as int).drop_last(),
                        ).push('\n'));
                    }
                    start = i;
                } else {
                    proof {
                        let t1 = s@.take(i + 1);
                        assert(!(t1.len() >= 2 && t1.last() == '\n' && t1[t1.len() - 2] == '\r'));
                        assert(r@ + s@.subrange(start as int, i + 1) =~= (r@ + s@.subrange(
                            start as int,
                            i as int,
                        )).push(c));
                    }
                }
                prev = c;
                i = i + 1;
            },
        }
    }
    let piece = s.substring_char(start, i);
    r.append(piece);
    r
}

/// Text sent to a control and read back is the text that was sent, when it
/// held no carriage return right before a line feed.
pub proof fn lemma_crlf_roundtrip(s: Seq<char>)
    requires
        !has_crlf(s),
    ensures
        spec_crlf_to_lf(spec_fix_crlf(s)) == s,
    decreases s.len(),
{
    if s.len() > 0 {
        let init = s.drop_last();
        assert(!has_crlf(init)) by {
            if has_crlf(init) {
                let i = choose|i: int|
                    0 <= i < init.len() - 1 && #[trigger] init[i] == '\r' && init[i + 1] == '\n';
                assert(s[i] == '\r' && s[i + 1] == '\n');
            }
        }
        lemma_crlf_roundtrip(init);
        let f = spec_fix_crlf(init);
        if s.last() == '\n' && (init.len() == 0 || init.last() != '\r') {
            let g = f + seq!['\r', '\n'];
            assert(g.drop_last().drop_last() =~= f);
            assert(g.len() >= 2 && g.last() == '\n' && g[g.len() - 2] == '\r');
        } else {
            if s.last() == '\n' {
                assert(init.len() > 0 && init.last() == '\r');
                assert(s[s.len() - 2] == '\r' && s[s.len() - 1] == '\n');
                assert(false);
            }
            let g = f.push(s.last());
            assert(g.drop_last() =~= f);
        }
        assert(s =~= init.push(s.last()));
    }
}

/// The last character of the text a control takes is the last character of
/// the text given, and it is empty only when that text is.
proof fn lemma_fix_crlf_last(s: Seq<char>)
    ensures
        spec_fix_crlf(s).len() >= s.len(),
        s.len() > 0 ==> spec_fix_crlf(s).last() == s.last(),
    decreases s.len(),
{
    if s.len() > 0 {
        lemma_fix_crlf_last(s.drop_last());
    }
}

/// A control is only ever given line feeds that follow a carriage return.
pub proof fn lemma_fixed_text_has_crlf_only(s: Seq<char>)
    ensures
        all_lf_after_cr(spec_fix_crlf(s)),
    decreases s.len(),
{
    if s.len() > 0 {
        let init = s.drop_last();
        lemma_fixed_text_has_crlf_only(init);
        lemma_fix_crlf_last(init);
        let f = spec_fix_crlf(init);
        if s.last() == '\n' && (init.len() == 0 || init.last() != '\r') {
            let g = f + seq!['\r', '\n'];
            assert forall|i: int| 0 <= i < g.len() && #[trigger] g[i] == '\n' implies i > 0 && g[i - 1]
                == '\r' by {
                if i < f.len() {
                    assert(g[i] == f[i]);
                    assert(g[i - 1] == f[i - 1]);
                }
            }
        } else {
            let g = f.push(s.last());
            assert forall|i: int| 0 <= i < g.len() && #[trigger] g[i] == '\n' implies i > 0 && g[i - 1]
                == '\r' by {
                if i < f.len() {
                    assert(g[i] == f[i]);
                    assert(g[i - 1] == f[i - 1]);
                } else {
                    assert(init.len() > 0 && init.last() == '\r');
                    assert(f.last() == '\r');
                }
            }
        }
    }
}

/// The text before the first nul character, where a wide C string given to a
/// control ends.
pub open spec fn spec_before_nul(s: Seq<char>) -> Seq<char>
    decreases s.len(),
{
    if s.len() == 0 {
        s
    } else if s[0] == '\0' {
        Seq::<char>::empty()
    } else {
        seq![s[0]] + spec_before_nul(s.drop_first())
    }
}

/// The text before the first nul character.
pub fn before_nul(s: &str) -> (r: String)
    ensures
        r@ == spec_before_nul(s@),
{
    let mut i: usize = 0;
    let n: usize = s.unicode_len();
    let mut it = s.chars();
    proof {
        assert(s@.skip(0) =~= s@);
    }
    loop
        invariant_except_break
            it.remaining() == s@.skip(i as int),
            it.obeys_prophetic_iter_laws(),
        invariant
            i <= s@.len(),
            s@.len() == n,
            forall|j: int| 0 <= j < i ==> s@[j] != '\0',
        ensures
            i < s@.len() ==> s@[i as int] == '\0',
        decreases s@.len() - i,
    {
        let next = it.next();
        match next {
            None => {
                proof {
                    assert(s@.skip(i as int).len() == 0);
                }
                break ;
            },
            Some(c) => {
                proof {
                    assert(s@.skip(i as int)[0] == s@[i as int]);
                    assert(s@.skip(i as int).drop_first() =~= s@.skip(i + 1));
                }
                if c == '\0' {
                    break ;
                }
                i = i + 1;
            },
        }
    }
    proof {
        lemma_before_nul_prefix(s@, i as int);
    }
    String::from_str(s.substring_char(0, i))
}

/// Where the first nul character stands at `i`, or nothing but non-nul
/// characters come before the end at `i`, the text before it is the prefix
/// of length `i`.
proof fn lemma_before_nul_prefix(s: Seq<char>, i: int)
    requires
        0 <= i <= s.len(),
        forall|j: int| 0 <= j < i ==> s[j] != '\0',
        i < s.len() ==> s[i] == '\0',
    ensures
        spec_before_nul(s) == s.subrange(0, i),
    decreases s.len(),
{
    if s.len() > 0 {
        if i == 0 {
            assert(s.subrange(0, 0) =~= Seq::<char>::empty());
        } else {
            let t = s.drop_first();
            assert forall|j: int| 0 <= j < i - 1 implies t[j] != '\0' by {
                assert(t[j] == s[j + 1]);
            }
            if i < s.len() {
                assert(t[i - 1] == s[i]);
            }
            lemma_before_nul_prefix(t, i - 1);
            assert(seq![s[0]] + t.subrange(0, i - 1) =~= s.subrange(0, i));
        }
    } else {
        assert(s.subrange(0, i) =~= s);
    }
}

/// Whether `s` holds no nul character.
pub open spec fn has_no_nul(s: Seq<char>) -> bool {
    forall|i: int| 0 <= i < s.len() ==> #[trigger] s[i] != '\0'
}

/// Text with no nul character is not cut.
pub proof fn lemma_before_nul_keeps_text(s: Seq<char>)
    requires
        has_no_nul(s),
    ensures
        spec_before_nul(s) == s,
    decreases s.len(),
{
    if s.len() > 0 {
        let t = s.drop_first();
        assert(has_no_nul(t)) by {
            assert forall|i: int| 0 <= i < t.len() implies #[trigger] t[i] != '\0' by {
                assert(t[i] == s[i + 1]);
            }
        }
        lemma_before_nul_keeps_text(t);
        assert(s[0] != '\0');
        assert(seq![s[0]] + t =~= s);
    }
}

/// Putting carriage returns before line feeds adds no nul character.
pub proof fn lemma_fix_crlf_adds_no_nul(s: Seq<char>)
    requires
        has_no_nul(s),
    ensures
        has_no_nul(spec_fix_crlf(s)),
    decreases s.len(),
{
    if s.len() > 0 {
        let init = s.drop_last();
        assert(has_no_nul(init)) by {
            assert forall|i: int| 0 <= i < init.len() implies #[trigger] init[i] != '\0' by {
                assert(init[i] == s[i]);
            }
        }
        lemma_fix_crlf_adds_no_nul(init);
        let f = spec_fix_crlf(init);
        assert(s.last() == s[s.len() - 1]);
        if s.last() == '\n' && (init.len() == 0 || init.last() != '\r') {
            let g = f + seq!['\r', '\n'];
            assert forall|i: int| 0 <= i < g.len() implies #[trigger] g[i] != '\0' by {
                if i < f.len() {
                    assert(g[i] == f[i]);
                }
            }
        } else {
            let g = f.push(s.last());
            assert forall|i: int| 0 <= i < g.len() implies #[trigger] g[i] != '\0' by {
                if i < f.len() {
                    assert(g[i] == f[i]);
                }
            }
        }
    }
}

/// The text a Win32 control holds once it was given `s`: carriage returns
/// put before the lone line feeds, then cut at the first nul character,
/// where the wide C string it is handed ends.
pub open spec fn spec_control_text(s: Seq<char>) -> Seq<char> {
    spec_before_nul(spec_fix_crlf(s))
}

/// A text box, or any control given text this way, reads back the text it
/// was set to, when that text holds no nul character and no carriage return
/// right before a line feed.
pub proof fn lemma_control_text_reads_back(s: Seq<char>)
    requires
        has_no_nul(s),
        !has_crlf(s),
    ensures
        spec_crlf_to_lf(spec_control_text(s)) == s,
{
    lemma_fix_crlf_adds_no_nul(s);
    lemma_before_nul_keeps_text(spec_fix_crlf(s));
    lemma_crlf_roundtrip(s);
}

} // verus!
