//! Filtering the desktop window scan by the caller's optional patterns.
//!
//! A window is kept when its class name and its window name each satisfy
//! the corresponding pattern; an absent pattern filters nothing, and so
//! does one that fails to compile, as the scan treats an unusable filter
//! as no filter.

use vstd::prelude::*;

use crate::types::Win32Window;

verus! {

/// Whether a pattern text compiles as a regular expression.
pub uninterp spec fn regex_ok(pat: Seq<char>) -> bool;

/// Whether the expression `pat` matches somewhere in `text` (meaningful
/// when `pat` compiles).
pub uninterp spec fn re_match_of(pat: Seq<char>, text: Seq<char>) -> bool;

/// Relies on `regex::Regex::new` and `Regex::is_match`: compiles the
/// pattern and tests it against the text; `None` when the pattern does
/// not compile.
#[verifier::external_body]
fn re_is_match(pat: &str, text: &str) -> (r: Option<bool>)
    ensures
        r is Some <==> regex_ok(pat@),
        r is Some ==> r->0 == re_match_of(pat@, text@),
{
    regex::Regex::new(pat).ok().map(|re| re.is_match(text))
}

/// Whether a text passes an optional pattern: no pattern, or a pattern
/// that does not compile, passes everything.
pub open spec fn passes(pat: Option<Seq<char>>, text: Seq<char>) -> bool {
    match pat {
        Some(p) => !regex_ok(p) || re_match_of(p, text),
        None => true,
    }
}

/// The windows that pass both patterns, in scan order.
pub open spec fn spec_filter_windows(
    ws: Seq<Win32Window>,
    class_pat: Option<Seq<char>>,
    window_pat: Option<Seq<char>>,
) -> Seq<Win32Window>
    decreases ws.len(),
{
    if ws.len() == 0 {
        Seq::<Win32Window>::empty()
    } else {
        let rest = spec_filter_windows(ws.drop_first(), class_pat, window_pat);
        if passes(class_pat, ws.first().class_name@) && passes(
            window_pat,
            ws.first().window_name@,
        ) {
            seq![ws.first()].add(rest)
        } else {
            rest
        }
    }
}

/// Keeps the windows whose class name and window name each satisfy the
/// corresponding optional pattern, in scan order. A pattern that is
/// absent or does not compile filters nothing on its axis.
pub fn filter_windows(
    windows: Vec<Win32Window>,
    class_pattern: Option<&str>,
    window_pattern: Option<&str>,
) -> (r: Vec<Win32Window>)
    ensures
        r@ == spec_filter_windows(
            windows@,
            match class_pattern {
                Some(p) => Some(p@),
                None => None,
            },
            match window_pattern {
                Some(p) => Some(p@),
                None => None,
            },
        ),
{
    let ghost class_pat: Option<Seq<char>> = match class_pattern {
        Some(p) => Some(p@),
        None => None,
    };
    let ghost window_pat: Option<Seq<char>> = match window_pattern {
        Some(p) => Some(p@),
        None => None,
    };
    let ghost orig = windows@;
    let mut windows = windows;
    let mut kept: Vec<Win32Window> = Vec::new();
    while windows.len() > 0
        invariant
            spec_filter_windows(orig, class_pat, window_pat) == kept@.add(
                spec_filter_windows(windows@, class_pat, window_pat),
            ),
            class_pat == (match class_pattern {
                Some(p) => Some(p@),
                None => None::<Seq<char>>,
            }),
            window_pat == (match window_pattern {
                Some(p) => Some(p@),
                None => None::<Seq<char>>,
            }),
        decreases windows@.len(),
    {
        let ghost before = windows@;
        let w = windows.remove(0);
        proof {
            assert(windows@ =~= before.drop_first());
            assert(w == before.first());
        }
        let class_ok = match class_pattern {
            Some(p) => match re_is_match(p, w.class_name.as_str()) {
                Some(m) => m,
                None => true,
            },
            None => true,
        };
        let window_ok = match window_pattern {
            Some(p) => match re_is_match(p, w.window_name.as_str()) {
                Some(m) => m,
                None => true,
            },
            None => true,
        };
        let ghost kept_before = kept@;
        if class_ok && window_ok {
            kept.push(w);
            proof {
                assert(kept@ =~= kept_before.push(before.first()));
                assert(kept_before.push(before.first()).add(
                    spec_filter_windows(before.drop_first(), class_pat, window_pat),
                ) =~= kept_before.add(spec_filter_windows(before, class_pat, window_pat)));
            }
        }
    }
    proof {
        assert(spec_filter_windows(windows@, class_pat, window_pat) =~= Seq::<
            Win32Window,
        >::empty());
        assert(kept@.add(Seq::<Win32Window>::empty()) =~= kept@);
    }
    kept
}

} // verus!
