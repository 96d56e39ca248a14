//! Shell-quoted rendering of a command line for diagnostic logging.
//!
//! `render_for_display` joins the binary path and every argument token with
//! spaces, shell-escaping each one. The rendered string is only ever shown to
//! a human; the process is always spawned from the raw token list.

use crate::command::OpenVpnCommand;
use crate::command::ConfigError;
use crate::command::spec_arguments;
use crate::command::spec_missing_proxy_port;
use crate::command::toks;
use vstd::prelude::*;
use vstd::string::StringExecFns;

verus! {

/// A character the shell gives no special meaning: these never force quoting.
pub open spec fn is_shell_safe_char(c: char) -> bool {
    ('a' <= c && c <= 'z') || ('A' <= c && c <= 'Z') || ('0' <= c && c <= '9') || c == '-'
        || c == '_' || c == '=' || c == '/' || c == ',' || c == '.' || c == '+'
}

/// How one character appears inside a single-quoted shell word: a quote or an
/// exclamation mark closes the quoting, emits the character backslash-escaped
/// and reopens it; every other character stands as itself.
pub open spec fn spec_escape_char(c: char) -> Seq<char> {
    if c == '\'' || c == '!' {
        seq!['\'', '\\', c, '\'']
    } else {
        seq![c]
    }
}

/// The body of a single-quoted shell word, character by character.
pub open spec fn spec_escape_body(s: Seq<char>) -> Seq<char>
    decreases s.len(),
{
    if s.len() == 0 {
        Seq::empty()
    } else {
        spec_escape_body(s.drop_last()) + spec_escape_char(s.last())
    }
}

/// A token as the shell should see it: unchanged when non-empty and made of
/// safe characters only, otherwise wrapped in single quotes with the quote
/// and exclamation-mark characters escaped.
pub open spec fn spec_escaped(s: Seq<char>) -> Seq<char> {
    if s.len() > 0 && (forall|i: int| 0 <= i < s.len() ==> is_shell_safe_char(s[i])) {
        s
    } else {
        seq!['\''] + spec_escape_body(s) + seq!['\'']
    }
}

/// The display form of a binary path and its argument tokens: the escaped
/// binary, then each escaped token preceded by one space.
pub open spec fn spec_display(bin: Seq<char>, args: Seq<Seq<char>>) -> Seq<char>
    decreases args.len(),
{
    if args.len() == 0 {
        spec_escaped(bin)
    } else {
        spec_display(bin, args.drop_last()) + seq![' '] + spec_escaped(args.last())
    }
}

/// Relies on shell_escape::unix::escape: a non-empty token of whitelisted
/// characters only is returned unchanged; any other token is wrapped in
/// single quotes, with each embedded quote or exclamation mark closed off,
/// backslash-escaped and reopened. The result depends on the characters
/// alone.
#[verifier::external_body]
fn escape_token(s: &str) -> (r: String)
    ensures
        r@ == spec_escaped(s@),
{
    shell_escape::unix::escape(std::borrow::Cow::Borrowed(s)).into_owned()
}

impl OpenVpnCommand {
    /// Renders the whole invocation, shell-quoted, for diagnostic logging;
    /// fails on the same configurations as `build`.
    pub fn render_for_display(&self) -> (r: Result<String, ConfigError>)
        ensures
            r is Ok <==> !spec_missing_proxy_port(*self),
            r matches Ok(s) ==> s@ == spec_display(self.openvpn_bin@, spec_arguments(*self)),
            r is Err ==> r == Result::<String, ConfigError>::Err(ConfigError::MissingProxyPort),
    {
        let args = match self.get_arguments() {
            Ok(a) => a,
            Err(e) => {
                return Err(e);
            }
        };
        let ghost gargs = toks(args@);
        let mut out = escape_token(self.openvpn_bin.as_str());
        proof {
            assert(gargs.subrange(0, 0) =~= Seq::<Seq<char>>::empty());
        }
        let n = args.len();
        let mut i: usize = 0;
        while i < n
            invariant
                i <= n,
                n == args@.len(),
                gargs == toks(args@),
                out@ == spec_display(self.openvpn_bin@, gargs.subrange(0, i as int)),
            decreases n - i,
        {
            proof {
                reveal_strlit(" ");
            }
            out.append(" ");
            let e = escape_token(args[i].as_str());
            out.append(e.as_str());
            i += 1;
            proof {
                let sub = gargs.subrange(0, i as int);
                assert(sub.drop_last() =~= gargs.subrange(0, i - 1));
                assert(sub.last() == gargs[i - 1]);
                assert(" "@ =~= seq![' ']);
                assert(out@ == spec_display(self.openvpn_bin@, sub));
            }
        }
        proof {
            assert(gargs.subrange(0, n as int) =~= gargs);
        }
        Ok(out)
    }
}

} // verus!
