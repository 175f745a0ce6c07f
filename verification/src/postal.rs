//! Splitting and joining of the French postal-info line (line 6 of the
//! NF Z10-011 layout): `"<post_code> <town_name...>"`.
//!
//! The spec model is a whitespace tokenizer: [`postal_tokens`] cuts a line
//! into its maximal whitespace-free tokens, and [`joined_with_spaces`] glues
//! tokens back together with single spaces.

use vstd::prelude::*;

use crate::error::{ConversionError, ConversionErrorView};

verus! {

/// The characters on which the postal-info line is split: the Unicode
/// White_Space set, exactly the characters `char::is_whitespace` recognizes.
pub open spec fn is_postal_ws(c: char) -> bool {
    ||| c == '\u{0009}'
    ||| c == '\u{000A}'
    ||| c == '\u{000B}'
    ||| c == '\u{000C}'
    ||| c == '\u{000D}'
    ||| c == '\u{0020}'
    ||| c == '\u{0085}'
    ||| c == '\u{00A0}'
    ||| c == '\u{1680}'
    ||| c == '\u{2000}'
    ||| c == '\u{2001}'
    ||| c == '\u{2002}'
    ||| c == '\u{2003}'
    ||| c == '\u{2004}'
    ||| c == '\u{2005}'
    ||| c == '\u{2006}'
    ||| c == '\u{2007}'
    ||| c == '\u{2008}'
    ||| c == '\u{2009}'
    ||| c == '\u{200A}'
    ||| c == '\u{2028}'
    ||| c == '\u{2029}'
    ||| c == '\u{202F}'
    ||| c == '\u{205F}'
    ||| c == '\u{3000}'
}

/// Decide [`is_postal_ws`] for one character.
fn is_whitespace_char(c: char) -> (r: bool)
    ensures
        r == is_postal_ws(c),
{
    c == '\u{0009}' || c == '\u{000A}' || c == '\u{000B}' || c == '\u{000C}' || c == '\u{000D}'
        || c == '\u{0020}' || c == '\u{0085}' || c == '\u{00A0}' || c == '\u{1680}'
        || c == '\u{2000}' || c == '\u{2001}' || c == '\u{2002}' || c == '\u{2003}'
        || c == '\u{2004}' || c == '\u{2005}' || c == '\u{2006}' || c == '\u{2007}'
        || c == '\u{2008}' || c == '\u{2009}' || c == '\u{200A}' || c == '\u{2028}'
        || c == '\u{2029}' || c == '\u{202F}' || c == '\u{205F}' || c == '\u{3000}'
}

/// Tokenizer helper: the tokens of `s`, with `cur` the token read so far.
pub open spec fn tokens_from(s: Seq<char>, cur: Seq<char>) -> Seq<Seq<char>>
    decreases s.len(),
{
    if s.len() == 0 {
        if cur.len() == 0 {
            Seq::empty()
        } else {
            seq![cur]
        }
    } else if is_postal_ws(s[0]) {
        if cur.len() == 0 {
            tokens_from(s.drop_first(), Seq::empty())
        } else {
            seq![cur] + tokens_from(s.drop_first(), Seq::empty())
        }
    } else {
        tokens_from(s.drop_first(), cur.push(s[0]))
    }
}

/// The maximal whitespace-free tokens of `s`, in order.
pub open spec fn postal_tokens(s: Seq<char>) -> Seq<Seq<char>> {
    tokens_from(s, Seq::empty())
}

/// Tokens glued back together with a single space between each pair.
pub open spec fn joined_with_spaces(ts: Seq<Seq<char>>) -> Seq<char>
    decreases ts.len(),
{
    if ts.len() == 0 {
        Seq::empty()
    } else if ts.len() == 1 {
        ts[0]
    } else {
        ts[0] + seq![' '] + joined_with_spaces(ts.drop_first())
    }
}

/// `s` with its whitespace normalized: tokens rejoined by single spaces,
/// leading and trailing whitespace gone.
pub open spec fn normalized_spaces(s: Seq<char>) -> Seq<char> {
    joined_with_spaces(postal_tokens(s))
}

/// What splitting a postal-info line yields: `None` when the line holds no
/// token, else the first token (the postal code) and the remaining tokens
/// rejoined with single spaces (the town name).
pub open spec fn spec_split_postal_info(s: Seq<char>) -> Option<(Seq<char>, Seq<char>)> {
    let ts = postal_tokens(s);
    if ts.len() == 0 {
        None
    } else {
        Some((ts[0], joined_with_spaces(ts.drop_first())))
    }
}

/// The token `cur` being read by the scanning loop: the characters from
/// `tstart` up to `i` while inside a token, nothing otherwise.
spec fn scan_cur(s: Seq<char>, tstart: int, i: int, in_token: bool) -> Seq<char> {
    if in_token {
        s.subrange(tstart, i)
    } else {
        Seq::empty()
    }
}

/// Appending one more token to a join costs exactly one separating space,
/// except for the very first token.
proof fn lemma_joined_push(ts: Seq<Seq<char>>, t: Seq<char>)
    ensures
        joined_with_spaces(ts.push(t)) == (if ts.len() == 0 {
            t
        } else {
            joined_with_spaces(ts) + seq![' '] + t
        }),
    decreases ts.len(),
{
    if ts.len() == 0 {
        assert(ts.push(t)[0] == t);
    } else {
        assert(ts.push(t)[0] == ts[0]);
        assert(ts.push(t).drop_first() =~= ts.drop_first().push(t));
        lemma_joined_push(ts.drop_first(), t);
        if ts.len() > 1 {
            assert((ts[0] + seq![' '] + (joined_with_spaces(ts.drop_first()) + seq![' '] + t))
                =~= ((ts[0] + seq![' '] + joined_with_spaces(ts.drop_first())) + seq![' '] + t));
        }
    }
}

/// A well-formed token: nonempty and free of whitespace.
pub open spec fn token_wf(t: Seq<char>) -> bool {
    t.len() > 0 && (forall|j: int| 0 <= j < t.len() ==> !is_postal_ws(t[j]))
}

proof fn lemma_tokens_from_wf(s: Seq<char>, cur: Seq<char>)
    requires
        forall|j: int| 0 <= j < cur.len() ==> !is_postal_ws(cur[j]),
    ensures
        forall|k: int| 0 <= k < tokens_from(s, cur).len() ==> token_wf(
            #[trigger] tokens_from(s, cur)[k],
        ),
    decreases s.len(),
{
    if s.len() == 0 {
        if cur.len() > 0 {
            assert(tokens_from(s, cur) == seq![cur]);
            assert(tokens_from(s, cur)[0] == cur);
            assert(token_wf(cur));
        }
    } else if is_postal_ws(s[0]) {
        lemma_tokens_from_wf(s.drop_first(), Seq::empty());
        let rec = tokens_from(s.drop_first(), Seq::<char>::empty());
        if cur.len() == 0 {
            assert(tokens_from(s, cur) == rec);
        } else {
            assert(tokens_from(s, cur) == seq![cur] + rec);
            assert(token_wf(cur));
            assert forall|k: int| 0 <= k < tokens_from(s, cur).len() implies token_wf(
                tokens_from(s, cur)[k],
            ) by {
                if k == 0 {
                    assert(tokens_from(s, cur)[0] == cur);
                } else {
                    assert(tokens_from(s, cur)[k] == rec[k - 1]);
                }
            }
        }
    } else {
        assert(forall|j: int| 0 <= j < cur.push(s[0]).len() ==> !is_postal_ws(cur.push(s[0])[j]));
        lemma_tokens_from_wf(s.drop_first(), cur.push(s[0]));
        assert(tokens_from(s, cur) == tokens_from(s.drop_first(), cur.push(s[0])));
    }
}

/// Joining at least one nonempty token yields a nonempty line.
pub proof fn lemma_joined_nonempty(ts: Seq<Seq<char>>)
    requires
        ts.len() > 0,
        ts[0].len() > 0,
    ensures
        joined_with_spaces(ts).len() > 0,
{
}

/// Every token the tokenizer yields is nonempty and whitespace-free.
pub proof fn lemma_postal_tokens_wf(s: Seq<char>)
    ensures
        forall|k: int| 0 <= k < postal_tokens(s).len() ==> token_wf(#[trigger] postal_tokens(s)[k]),
{
    lemma_tokens_from_wf(s, Seq::empty());
}

/// Scanning a whitespace-free prefix only lengthens the current token.
proof fn lemma_tokens_nonws_prefix(p: Seq<char>, rest: Seq<char>, cur: Seq<char>)
    requires
        forall|k: int| 0 <= k < p.len() ==> !is_postal_ws(p[k]),
    ensures
        tokens_from(p + rest, cur) == tokens_from(rest, cur + p),
    decreases p.len(),
{
    if p.len() == 0 {
        assert(p + rest =~= rest);
        assert(cur + p =~= cur);
    } else {
        assert((p + rest)[0] == p[0]);
        assert((p + rest).drop_first() =~= p.drop_first() + rest);
        lemma_tokens_nonws_prefix(p.drop_first(), rest, cur.push(p[0]));
        assert(cur.push(p[0]) + p.drop_first() =~= cur + p);
    }
}

/// Splitting undoes joining: a line built as `pc`, one space, `town` — with
/// `pc` a nonempty whitespace-free token — tokenizes to `pc` followed by the
/// tokens of `town`.
pub proof fn lemma_tokens_of_rejoined(pc: Seq<char>, town: Seq<char>)
    requires
        pc.len() > 0,
        forall|k: int| 0 <= k < pc.len() ==> !is_postal_ws(pc[k]),
    ensures
        postal_tokens(pc + seq![' '] + town) == seq![pc] + postal_tokens(town),
{
    let sep_town = seq![' '] + town;
    assert(pc + seq![' '] + town =~= pc + sep_town);
    lemma_tokens_nonws_prefix(pc, sep_town, Seq::empty());
    assert(Seq::empty() + pc =~= pc);
    assert(is_postal_ws(sep_town[0]));
    assert(sep_town.drop_first() =~= town);
}

/// Split the French postal-info line into its postal code (the first token)
/// and its town name (every later token, rejoined with single spaces).
///
/// Fails exactly when the line holds no token at all.
pub fn split_postal_info(postal_info: String) -> (r: Result<(String, String), ConversionError>)
    ensures
        (match r {
            Ok(pt) => spec_split_postal_info(postal_info@) == Some((pt.0@, pt.1@)),
            Err(e) => spec_split_postal_info(postal_info@) is None && e@
                == ConversionErrorView::MalformedPostalInfo,
        }),
{
    let s: &str = postal_info.as_str();
    let n: usize = s.unicode_len();
    let mut toks: Vec<String> = Vec::new();
    let mut in_token: bool = false;
    let mut tstart: usize = 0;
    let mut i: usize = 0;
    proof {
        assert(s@.skip(0) =~= s@);
        assert(toks.deep_view() =~= Seq::<Seq<char>>::empty());
        assert(Seq::<Seq<char>>::empty() + postal_tokens(s@) =~= postal_tokens(s@));
    }
    while i < n
        invariant
            s@ == postal_info@,
            n == s@.len(),
            i <= n,
            in_token ==> tstart < i,
            postal_tokens(s@) == toks.deep_view() + tokens_from(
                s@.skip(i as int),
                scan_cur(s@, tstart as int, i as int, in_token),
            ),
        decreases n - i,
    {
        let ghost cur = scan_cur(s@, tstart as int, i as int, in_token);
        proof {
            assert(s@.skip(i as int)[0] == s@[i as int]);
            assert(s@.skip(i as int).drop_first() =~= s@.skip(i as int + 1));
        }
        let c = s.get_char(i);
        if is_whitespace_char(c) {
            if in_token {
                let tok = s.substring_char(tstart, i);
                proof {
                    assert(tok@ == cur);
                    assert(tokens_from(s@.skip(i as int), cur) == seq![cur] + tokens_from(
                        s@.skip(i as int + 1),
                        Seq::<char>::empty(),
                    ));
                }
                let ghost old_toks = toks.deep_view();
                toks.push(String::from_str(tok));
                proof {
                    assert(toks.deep_view() =~= old_toks.push(cur));
                    assert((old_toks + (seq![cur] + tokens_from(
                        s@.skip(i as int + 1),
                        Seq::<char>::empty(),
                    ))) =~= (old_toks.push(cur) + tokens_from(
                        s@.skip(i as int + 1),
                        Seq::<char>::empty(),
                    )));
                }
                in_token = false;
            }
        } else {
            if !in_token {
                tstart = i;
                in_token = true;
            }
            proof {
                assert(cur.push(s@[i as int]) =~= s@.subrange(tstart as int, i as int + 1));
            }
        }
        i = i + 1;
    }
    proof {
        assert(s@.skip(n as int) =~= Seq::<char>::empty());
    }
    if in_token {
        let tok = s.substring_char(tstart, n);
        let ghost cur = scan_cur(s@, tstart as int, n as int, true);
        let ghost old_toks = toks.deep_view();
        proof {
            assert(tok@ == cur);
            assert(tokens_from(Seq::<char>::empty(), cur) == seq![cur]);
        }
        toks.push(String::from_str(tok));
        proof {
            assert(toks.deep_view() =~= old_toks.push(cur));
            assert(old_toks + seq![cur] =~= old_toks.push(cur));
        }
    }
    proof {
        assert(toks.deep_view() + Seq::<Seq<char>>::empty() =~= toks.deep_view());
        assert(postal_tokens(s@) == toks.deep_view());
    }
    if toks.len() == 0 {
        proof {
            assert(postal_tokens(s@).len() == 0);
        }
        return Err(ConversionError::MalformedPostalInfo);
    }
    let ghost all_tokens = toks.deep_view();
    let post_code = toks.remove(0);
    proof {
        assert(post_code@ == all_tokens[0]);
        assert(toks.deep_view() =~= all_tokens.drop_first());
    }
    let ghost tail = toks.deep_view();
    let mut town = String::new();
    let m: usize = toks.len();
    let mut j: usize = 0;
    while j < m
        invariant
            m == toks.len(),
            j <= m,
            toks.deep_view() == tail,
            town@ == joined_with_spaces(tail.take(j as int)),
        decreases m - j,
    {
        proof {
            reveal_strlit(" ");
            assert(" "@ =~= seq![' ']);
            lemma_joined_push(tail.take(j as int), tail[j as int]);
            assert(tail.take(j as int).push(tail[j as int]) =~= tail.take(j as int + 1));
        }
        if j > 0 {
            town.append(" ");
        }
        let t: &String = &toks[j];
        proof {
            assert(t@ == tail[j as int]);
        }
        town.append(t.as_str());
        j = j + 1;
    }
    proof {
        assert(tail.take(m as int) =~= tail);
    }
    Ok((post_code, town))
}

} // verus!
