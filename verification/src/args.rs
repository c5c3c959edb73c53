//! Shell-like splitting of a configuration string into process arguments.
//!
//! An unquoted space separates tokens; a double quote toggles quoted mode, in
//! which spaces belong to the current token; a backslash escapes the next
//! character, so a literal double quote can stand inside a quoted token. A
//! token still being buffered when the input ends is kept only when it is
//! non-empty and no quoted section is still open.

use vstd::prelude::*;

verus! {

/// The scanner's state after reading some prefix of the input.
pub ghost struct ScanState {
    /// Inside a double-quoted section.
    pub quoted: bool,
    /// The previous character was an unconsumed backslash.
    pub escaped: bool,
    /// Characters gathered for the token being built.
    pub buffer: Seq<char>,
    /// Tokens already emitted.
    pub tokens: Seq<Seq<char>>,
}

/// The scanner's state before any input.
pub open spec fn scan_init() -> ScanState {
    ScanState { quoted: false, escaped: false, buffer: Seq::empty(), tokens: Seq::empty() }
}

/// One character of input applied to the scanner.
pub open spec fn scan_step(st: ScanState, c: char) -> ScanState {
    if c == '"' {
        if st.escaped {
            ScanState { escaped: false, buffer: st.buffer.push(c), ..st }
        } else {
            ScanState { quoted: !st.quoted, escaped: false, ..st }
        }
    } else if c == '\\' {
        ScanState { escaped: true, ..st }
    } else if c == ' ' {
        if st.quoted {
            ScanState { escaped: false, buffer: st.buffer.push(c), ..st }
        } else {
            ScanState {
                escaped: false,
                buffer: Seq::empty(),
                tokens: st.tokens.push(st.buffer),
                ..st
            }
        }
    } else {
        ScanState { escaped: false, buffer: st.buffer.push(c), ..st }
    }
}

/// The scanner's state after the first `n` characters of `s`.
pub open spec fn scan_prefix(s: Seq<char>, n: int) -> ScanState
    decreases n,
{
    if n <= 0 {
        scan_init()
    } else {
        scan_step(scan_prefix(s, n - 1), s[n - 1])
    }
}

/// The token list produced for the whole input: the final buffer is kept only
/// when it is non-empty and no quoted section is still open.
pub open spec fn args_model(s: Seq<char>) -> Seq<Seq<char>> {
    let st = scan_prefix(s, s.len() as int);
    if !st.quoted && st.buffer.len() > 0 {
        st.tokens.push(st.buffer)
    } else {
        st.tokens
    }
}

/// An empty configuration string yields no arguments.
pub proof fn lemma_args_model_empty(s: Seq<char>)
    requires
        s.len() == 0,
    ensures
        args_model(s) == Seq::<Seq<char>>::empty(),
{
    assert(scan_prefix(s, 0) == scan_init());
}

/// An escaped double quote inside a token is kept literally: from any state
/// not already escaping, a backslash followed by a double quote appends the
/// quote to the token being built, emits nothing, and leaves quoted mode as
/// it was.
pub proof fn lemma_escaped_quote_is_literal(st: ScanState)
    requires
        !st.escaped,
    ensures
        scan_step(scan_step(st, '\\'), '"') == (ScanState {
            buffer: st.buffer.push('"'),
            escaped: false,
            ..st
        }),
{
}

/// Whether a quoted section is still open after reading `s`: an odd number
/// of double quotes has been read.
pub open spec fn in_open_quote(s: Seq<char>) -> bool
    decreases s.len(),
{
    if s.len() == 0 {
        false
    } else {
        in_open_quote(s.drop_last()) != (s.last() == '"')
    }
}

/// The tokens of a backslash-free input split at unquoted spaces, with the
/// token still being built included as the last entry even when empty: a
/// double quote contributes no character, a space preceded by an even number
/// of quotes ends the current token, and every other character — quoted
/// spaces included — is appended verbatim.
pub open spec fn spec_unquoted_space_split(s: Seq<char>) -> Seq<Seq<char>>
    decreases s.len(),
{
    if s.len() == 0 {
        seq![Seq::empty()]
    } else {
        let t = spec_unquoted_space_split(s.drop_last());
        let c = s.last();
        if c == '"' {
            t
        } else if c == ' ' && !in_open_quote(s.drop_last()) {
            t.push(Seq::empty())
        } else {
            t.update(t.len() - 1, t.last().push(c))
        }
    }
}

/// `spec_unquoted_space_split` always yields at least the token being built.
proof fn lemma_unquoted_split_nonempty(s: Seq<char>)
    ensures
        spec_unquoted_space_split(s).len() >= 1,
    decreases s.len(),
{
    if s.len() > 0 {
        lemma_unquoted_split_nonempty(s.drop_last());
    }
}

/// Helper: on a backslash-free input the scanner never escapes, its quoted
/// mode is exactly the quote parity of the prefix read so far, and its
/// emitted tokens followed by its buffer are exactly that prefix's tokens
/// split at unquoted spaces.
proof fn lemma_noslash_scan(s: Seq<char>, n: int)
    requires
        0 <= n <= s.len(),
        forall|i: int| 0 <= i < s.len() ==> s[i] != '\\',
    ensures
        !scan_prefix(s, n).escaped,
        scan_prefix(s, n).quoted == in_open_quote(s.take(n)),
        scan_prefix(s, n).tokens.push(scan_prefix(s, n).buffer) == spec_unquoted_space_split(
            s.take(n),
        ),
    decreases n,
{
    if n == 0 {
        assert(s.take(0) =~= Seq::<char>::empty());
        assert(scan_init().tokens.push(scan_init().buffer) =~= seq![Seq::<char>::empty()]);
    } else {
        lemma_noslash_scan(s, n - 1);
        lemma_unquoted_split_nonempty(s.take(n - 1));
        let pre = scan_prefix(s, n - 1);
        let c = s[n - 1];
        assert(s.take(n).drop_last() =~= s.take(n - 1));
        assert(s.take(n).last() == c);
        if c == '"' {
            assert(scan_prefix(s, n).tokens.push(scan_prefix(s, n).buffer)
                == spec_unquoted_space_split(s.take(n - 1)));
        } else if c == ' ' && !pre.quoted {
            assert(scan_prefix(s, n).tokens.push(scan_prefix(s, n).buffer)
                =~= spec_unquoted_space_split(s.take(n - 1)).push(Seq::empty()));
        } else {
            let t = spec_unquoted_space_split(s.take(n - 1));
            assert(t.last() == pre.buffer);
            assert(pre.tokens.push(pre.buffer.push(c)) =~= t.update(
                t.len() - 1,
                t.last().push(c),
            ));
        }
    }
}

/// On an input without backslashes and with every quoted section closed, the
/// scanner splits exactly at unquoted spaces: the double quotes themselves
/// vanish, a space inside quotes stays verbatim in its token, a space
/// outside quotes ends a token (consecutive ones yielding empty tokens), and
/// the token after the last separator is kept only when non-empty.
pub proof fn lemma_splits_on_unquoted_spaces(s: Seq<char>)
    requires
        forall|i: int| 0 <= i < s.len() ==> s[i] != '\\',
        !in_open_quote(s),
    ensures
        args_model(s) == if spec_unquoted_space_split(s).last().len() == 0 {
            spec_unquoted_space_split(s).drop_last()
        } else {
            spec_unquoted_space_split(s)
        },
{
    lemma_noslash_scan(s, s.len() as int);
    lemma_unquoted_split_nonempty(s);
    let st = scan_prefix(s, s.len() as int);
    assert(s.take(s.len() as int) =~= s);
    let all = spec_unquoted_space_split(s);
    assert(st.tokens.push(st.buffer) == all);
    assert(st.buffer == all.last());
    if st.buffer.len() == 0 {
        assert(st.tokens =~= all.drop_last());
    } else {
        assert(st.tokens.push(st.buffer) == all);
    }
}

/// Relies on String::push, which appends one character at the end.
#[verifier::external_body]
fn push_char(s: &mut String, c: char)
    ensures
        final(s)@ == old(s)@.push(c),
{
    s.push(c);
}

/// Split a configuration string into process arguments with shell-like
/// quoting.
pub fn string_to_args(s: &str) -> (args: Vec<String>)
    ensures
        args.deep_view() == args_model(s@),
{
    let n: usize = s.unicode_len();
    let mut args: Vec<String> = Vec::new();
    let mut buffer: String = String::new();
    let mut quoted: bool = false;
    let mut escaped: bool = false;
    let mut i: usize = 0;
    while i < n
        invariant
            i <= n,
            n == s@.len(),
            quoted == scan_prefix(s@, i as int).quoted,
            escaped == scan_prefix(s@, i as int).escaped,
            buffer@ == scan_prefix(s@, i as int).buffer,
            args.deep_view() == scan_prefix(s@, i as int).tokens,
        decreases n - i,
    {
        let ghost pre = scan_prefix(s@, i as int);
        let c = s.get_char(i);
        proof {
            assert(scan_prefix(s@, i + 1) == scan_step(pre, s@[i as int]));
        }
        if c == '"' {
            if escaped {
                push_char(&mut buffer, c);
            } else {
                quoted = !quoted;
            }
            escaped = false;
        } else if c == '\\' {
            escaped = true;
        } else if c == ' ' {
            if quoted {
                push_char(&mut buffer, c);
            } else {
                let ghost before = args.deep_view();
                args.push(buffer);
                buffer = String::new();
                proof {
                    assert(args.deep_view() =~= before.push(pre.buffer));
                }
            }
            escaped = false;
        } else {
            push_char(&mut buffer, c);
            escaped = false;
        }
        i = i + 1;
    }
    if !quoted && !buffer.as_str().is_empty() {
        let ghost before = args.deep_view();
        let ghost last = buffer@;
        args.push(buffer);
        proof {
            assert(args.deep_view() =~= before.push(last));
        }
    }
    args
}

} // verus!
