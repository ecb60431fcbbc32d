//! The override tokens a user types after a runnable (`@dx.serve`, `+nightly`,
//! `RUST_LOG=debug`, `/--nocapture`, `-env`, `!!`, ...), read into the fields
//! of the per-function override they ask for.
use vstd::prelude::*;

use crate::env::{EnvView, env_insert, env_set};
use crate::paths::replace_char;
use crate::strings::{owned, slice, slice_from, str_eq, position_from, char_position, lemma_position_from, position_of};
use crate::types::{opt_view, push_string};

verus! {

/// Whether a character outside ASCII has the Unicode `Uppercase` property.
pub uninterp spec fn char_is_uppercase(c: char) -> bool;

/// Whether `c` has the Unicode `Uppercase` property: among ASCII characters,
/// exactly `A` to `Z`.
pub open spec fn uppercase_char(c: char) -> bool {
    if c <= '\u{7f}' {
        'A' <= c && c <= 'Z'
    } else {
        char_is_uppercase(c)
    }
}

/// `char::is_uppercase` from std. The contract states the result for ASCII
/// characters (true exactly for `A` to `Z`) and names it for the others,
/// without restating the Unicode tables.
#[verifier::external_body]
fn is_uppercase(c: char) -> (r: bool)
    ensures
        r == if c <= '\u{7f}' {
            'A' <= c && c <= 'Z'
        } else {
            char_is_uppercase(c)
        },
{
    c.is_uppercase()
}

/// A character that may appear in an environment variable name typed as a token.
pub open spec fn env_name_char(c: char) -> bool {
    uppercase_char(c) || c == '_'
}

/// Every character of `s` may appear in such a name.
pub open spec fn env_name_chars(s: Seq<char>) -> bool {
    forall|k: int| 0 <= k < s.len() ==> env_name_char(s[k])
}

/// What the tokens read so far ask for.
pub struct OverrideScan {
    pub append: bool,
    pub remove_override: bool,
    pub command: Option<Seq<char>>,
    pub subcommand: Option<Seq<char>>,
    pub channel: Option<Seq<char>>,
    pub remove_command: bool,
    pub remove_subcommand: bool,
    pub remove_channel: bool,
    pub remove_args: bool,
    pub remove_env: bool,
    pub remove_test_args: bool,
    pub extra_args: Seq<Seq<char>>,
    pub extra_env: EnvView,
    pub env_to_remove: Seq<Seq<char>>,
    pub test_args: Seq<Seq<char>>,
}

/// Nothing read yet.
pub open spec fn empty_scan() -> OverrideScan {
    OverrideScan {
        append: false,
        remove_override: false,
        command: None,
        subcommand: None,
        channel: None,
        remove_command: false,
        remove_subcommand: false,
        remove_channel: false,
        remove_args: false,
        remove_env: false,
        remove_test_args: false,
        extra_args: Seq::empty(),
        extra_env: Seq::empty(),
        env_to_remove: Seq::empty(),
        test_args: Seq::empty(),
    }
}

/// A token of more than one character starting with `!`: the reset of the
/// field it names; an unknown one is kept as an extra argument.
pub open spec fn bang_token(st: OverrideScan, a: Seq<char>) -> OverrideScan {
    if a == "!env"@ {
        OverrideScan { remove_env: true, ..st }
    } else if a == "!#"@ || a == "!/"@ || a == "!test"@ {
        OverrideScan { remove_test_args: true, ..st }
    } else if a == "!args"@ || a == "!features"@ || a == "!"@ {
        OverrideScan { remove_args: true, ..st }
    } else if a == "!command"@ || a == "!cmd"@ {
        OverrideScan { remove_command: true, ..st }
    } else if a == "!subcommand"@ || a == "!sub"@ {
        OverrideScan { remove_subcommand: true, ..st }
    } else if a == "!channel"@ || a == "!ch"@ {
        OverrideScan { remove_channel: true, ..st }
    } else {
        OverrideScan { extra_args: st.extra_args.push(a), ..st }
    }
}

/// A token starting with a single `-`: the removal of the field it names, or
/// of the environment variable it names; anything else is ignored.
pub open spec fn dash_token(st: OverrideScan, a: Seq<char>) -> OverrideScan {
    if a == "-command"@ || a == "-cmd"@ {
        OverrideScan { remove_command: true, ..st }
    } else if a == "-subcommand"@ || a == "-sub"@ {
        OverrideScan { remove_subcommand: true, ..st }
    } else if a == "-channel"@ || a == "-ch"@ {
        OverrideScan { remove_channel: true, ..st }
    } else if a == "-arg"@ {
        OverrideScan { remove_args: true, ..st }
    } else if a == "-env"@ {
        OverrideScan { remove_env: true, ..st }
    } else if a == "-test"@ || a == "-/"@ {
        OverrideScan { remove_test_args: true, ..st }
    } else {
        let name = a.subrange(1, a.len() as int);
        if env_name_chars(name) && name.len() > 0 {
            OverrideScan { env_to_remove: st.env_to_remove.push(name), ..st }
        } else {
            st
        }
    }
}

/// The text after `@`: the part before the first `.` names the command and
/// the rest, with its dots read as spaces, the subcommand; for `cargo` only
/// the subcommand is set. An empty command name sets nothing.
pub open spec fn at_token(st: OverrideScan, t: Seq<char>) -> OverrideScan {
    let dot = char_position(t, '.');
    let cmd = t.subrange(0, dot);
    if cmd.len() == 0 {
        st
    } else if dot < t.len() {
        let sub = replace_char(t.subrange(dot + 1, t.len() as int), '.', ' ');
        if cmd == "cargo"@ {
            OverrideScan { subcommand: Some(sub), ..st }
        } else {
            OverrideScan { command: Some(cmd), subcommand: Some(sub), ..st }
        }
    } else {
        OverrideScan { command: Some(cmd), ..st }
    }
}

/// `KEY=value` where every character before the first `=` is uppercase or `_`.
pub open spec fn is_env_assignment(a: Seq<char>) -> bool {
    let eq = char_position(a, '=');
    env_name_chars(a.subrange(0, eq)) && eq < a.len()
}

/// Sets the variable of an assignment; one with an empty name sets nothing.
pub open spec fn env_assignment(st: OverrideScan, a: Seq<char>) -> OverrideScan {
    let eq = char_position(a, '=');
    if eq > 0 {
        OverrideScan {
            extra_env: env_insert(st.extra_env, a.subrange(0, eq), a.subrange(eq + 1, a.len() as int)),
            ..st
        }
    } else {
        st
    }
}

/// One token other than one that introduces test binary arguments; `first`
/// tells whether it is the first token.
pub open spec fn step(st: OverrideScan, a: Seq<char>, first: bool) -> OverrideScan {
    if first && a == "@"@ {
        OverrideScan { append: true, ..st }
    } else if a == "!!"@ || a == "-"@ {
        OverrideScan { remove_override: true, ..st }
    } else if a.len() > 1 && a[0] == '!' {
        bang_token(st, a)
    } else if a.len() > 0 && a[0] == '-' && !(a.len() > 1 && a[1] == '-') {
        dash_token(st, a)
    } else if a.len() > 0 && a[0] == '@' {
        at_token(st, a.subrange(1, a.len() as int))
    } else if a.len() > 1 && a[0] == '+' {
        OverrideScan { channel: Some(a.subrange(1, a.len() as int)), ..st }
    } else if is_env_assignment(a) {
        env_assignment(st, a)
    } else {
        OverrideScan { extra_args: st.extra_args.push(a), ..st }
    }
}

/// A token starting with `/` (or the older `#`) begins the test binary arguments.
pub open spec fn is_test_args_token(a: Seq<char>) -> bool {
    a.len() > 0 && (a[0] == '/' || a[0] == '#')
}

/// Reads `args` from position `i` on, starting from `st`. A test-argument
/// token takes what follows its first character (when not empty) and every
/// later token as test binary arguments, and ends the reading.
pub open spec fn scan(args: Seq<Seq<char>>, i: int, st: OverrideScan) -> OverrideScan
    decreases args.len() - i,
{
    if i >= args.len() {
        st
    } else if is_test_args_token(args[i]) {
        let head = args[i].subrange(1, args[i].len() as int);
        let with_head = if head.len() > 0 {
            st.test_args.push(head)
        } else {
            st.test_args
        };
        OverrideScan { test_args: with_head + args.subrange(i + 1, args.len() as int), ..st }
    } else {
        scan(args, i + 1, step(st, args[i], i == 0))
    }
}

/// The fields of a parsed override, as values.
pub struct ParsedOverrideView {
    pub remove_override: bool,
    pub append: bool,
    pub command: Option<Seq<char>>,
    pub remove_command: bool,
    pub subcommand: Option<Seq<char>>,
    pub remove_subcommand: bool,
    pub channel: Option<Seq<char>>,
    pub remove_channel: bool,
    pub extra_args: Option<Seq<Seq<char>>>,
    pub remove_args: bool,
    pub extra_env: Option<EnvView>,
    pub remove_env: bool,
    pub remove_env_keys: Option<Seq<Seq<char>>>,
    pub extra_test_binary_args: Option<Seq<Seq<char>>>,
    pub remove_test_args: bool,
}

/// The override that removes the whole entry and says nothing else.
pub open spec fn removal_only() -> ParsedOverrideView {
    ParsedOverrideView {
        remove_override: true,
        append: false,
        command: None,
        remove_command: false,
        subcommand: None,
        remove_subcommand: false,
        channel: None,
        remove_channel: false,
        extra_args: None,
        remove_args: false,
        extra_env: None,
        remove_env: false,
        remove_env_keys: None,
        extra_test_binary_args: None,
        remove_test_args: false,
    }
}

/// What a finished reading amounts to. A removal of the whole override hides
/// everything else. A value and the removal of the same field cancel out; the
/// removal alone is reported only when no value was given (for the command,
/// subcommand and channel) and always for the lists and the environment.
pub open spec fn outcome(st: OverrideScan) -> ParsedOverrideView {
    if st.remove_override {
        removal_only()
    } else {
        ParsedOverrideView {
            remove_override: false,
            append: st.append,
            command: if st.remove_command { None } else { st.command },
            remove_command: st.command is None && st.remove_command,
            subcommand: if st.remove_subcommand { None } else { st.subcommand },
            remove_subcommand: st.subcommand is None && st.remove_subcommand,
            channel: if st.remove_channel { None } else { st.channel },
            remove_channel: st.channel is None && st.remove_channel,
            extra_args: if st.extra_args.len() > 0 && !st.remove_args { Some(st.extra_args) } else { None },
            remove_args: st.remove_args,
            extra_env: if st.extra_env.len() > 0 && !st.remove_env { Some(st.extra_env) } else { None },
            remove_env: st.remove_env,
            remove_env_keys: if st.env_to_remove.len() > 0 { Some(st.env_to_remove) } else { None },
            extra_test_binary_args: if st.test_args.len() > 0 && !st.remove_test_args {
                Some(st.test_args)
            } else {
                None
            },
            remove_test_args: st.remove_test_args,
        }
    }
}

/// The override a list of tokens asks for. Each field that is `Some` or
/// `true` is one entry of the override written to the configuration.
#[derive(Debug, Clone, PartialEq, Eq)]
pub struct ParsedOverride {
    pub remove_override: bool,
    pub append: bool,
    pub command: Option<String>,
    pub remove_command: bool,
    pub subcommand: Option<String>,
    pub remove_subcommand: bool,
    pub channel: Option<String>,
    pub remove_channel: bool,
    pub extra_args: Option<Vec<String>>,
    pub remove_args: bool,
    pub extra_env: Option<Vec<(String, String)>>,
    pub remove_env: bool,
    pub remove_env_keys: Option<Vec<String>>,
    pub extra_test_binary_args: Option<Vec<String>>,
    pub remove_test_args: bool,
}

/// The characters of each string of an optional list.
pub open spec fn opt_list_view(o: Option<Vec<String>>) -> Option<Seq<Seq<char>>> {
    match o {
        Some(v) => Some(v.deep_view()),
        None => None,
    }
}

/// The characters of each pair of an optional list of pairs.
pub open spec fn opt_env_view(o: Option<Vec<(String, String)>>) -> Option<EnvView> {
    match o {
        Some(v) => Some(v.deep_view()),
        None => None,
    }
}

impl View for ParsedOverride {
    type V = ParsedOverrideView;

    open spec fn view(&self) -> ParsedOverrideView {
        ParsedOverrideView {
            remove_override: self.remove_override,
            append: self.append,
            command: opt_view(self.command),
            remove_command: self.remove_command,
            subcommand: opt_view(self.subcommand),
            remove_subcommand: self.remove_subcommand,
            channel: opt_view(self.channel),
            remove_channel: self.remove_channel,
            extra_args: opt_list_view(self.extra_args),
            remove_args: self.remove_args,
            extra_env: opt_env_view(self.extra_env),
            remove_env: self.remove_env,
            remove_env_keys: opt_list_view(self.remove_env_keys),
            extra_test_binary_args: opt_list_view(self.extra_test_binary_args),
            remove_test_args: self.remove_test_args,
        }
    }
}

/// The reading in progress.
struct Scanner {
    append: bool,
    remove_override: bool,
    command: Option<String>,
    subcommand: Option<String>,
    channel: Option<String>,
    remove_command: bool,
    remove_subcommand: bool,
    remove_channel: bool,
    remove_args: bool,
    remove_env: bool,
    remove_test_args: bool,
    extra_args: Vec<String>,
    extra_env: Vec<(String, String)>,
    env_to_remove: Vec<String>,
    test_args: Vec<String>,
}

impl View for Scanner {
    type V = OverrideScan;

    closed spec fn view(&self) -> OverrideScan {
        OverrideScan {
            append: self.append,
            remove_override: self.remove_override,
            command: opt_view(self.command),
            subcommand: opt_view(self.subcommand),
            channel: opt_view(self.channel),
            remove_command: self.remove_command,
            remove_subcommand: self.remove_subcommand,
            remove_channel: self.remove_channel,
            remove_args: self.remove_args,
            remove_env: self.remove_env,
            remove_test_args: self.remove_test_args,
            extra_args: self.extra_args.deep_view(),
            extra_env: self.extra_env.deep_view(),
            env_to_remove: self.env_to_remove.deep_view(),
            test_args: self.test_args.deep_view(),
        }
    }
}

/// Whether every character of `s` from `from` up to `to` may appear in an
/// environment variable name.
fn env_name_chars_in(s: &str, from: usize, to: usize) -> (r: bool)
    requires
        from <= to <= s@.len(),
    ensures
        r == env_name_chars(s@.subrange(from as int, to as int)),
{
    let mut k: usize = from;
    while k < to
        invariant
            from <= k <= to,
            to <= s@.len(),
            forall|j: int| from <= j < k ==> env_name_char(#[trigger] s@[j]),
        decreases to - k,
    {
        let c = s.get_char(k);
        let up = is_uppercase(c);
        if !(up || c == '_') {
            assert(s@.subrange(from as int, to as int)[k - from] == c);
            return false;
        }
        k = k + 1;
    }
    assert forall|j: int| 0 <= j < to - from implies env_name_char(
        #[trigger] s@.subrange(from as int, to as int)[j],
    ) by {
        assert(s@.subrange(from as int, to as int)[j] == s@[from + j]);
    }
    true
}

/// `s` with every `.` read as a space.
fn dots_to_spaces(s: &str) -> (r: String)
    ensures
        r@ == replace_char(s@, '.', ' '),
{
    let n = s.unicode_len();
    let mut out = String::new();
    let mut k: usize = 0;
    while k < n
        invariant
            n == s@.len(),
            k <= n,
            out@ == replace_char(s@.subrange(0, k as int), '.', ' '),
        decreases n - k,
    {
        let c = s.get_char(k);
        let ghost before = out@;
        proof {
            reveal_strlit(" ");
            assert(s@.subrange(0, k + 1) =~= s@.subrange(0, k as int).push(c));
            assert(replace_char(s@.subrange(0, k + 1), '.', ' ') =~= replace_char(
                s@.subrange(0, k as int),
                '.',
                ' ',
            ).push(if c == '.' { ' ' } else { c }));
        }
        if c == '.' {
            out.append(" ");
            assert(out@ =~= before.push(' '));
        } else {
            let one = slice(s, k, k + 1);
            out.append(one.as_str());
            assert(out@ =~= before.push(c));
        }
        k = k + 1;
    }
    assert(s@.subrange(0, n as int) =~= s@);
    out
}

impl Scanner {
    fn new() -> (r: Scanner)
        ensures
            r@ == empty_scan(),
    {
        let r = Scanner {
            append: false,
            remove_override: false,
            command: None,
            subcommand: None,
            channel: None,
            remove_command: false,
            remove_subcommand: false,
            remove_channel: false,
            remove_args: false,
            remove_env: false,
            remove_test_args: false,
            extra_args: Vec::new(),
            extra_env: Vec::new(),
            env_to_remove: Vec::new(),
            test_args: Vec::new(),
        };
        assert(r@.extra_args =~= Seq::<Seq<char>>::empty());
        assert(r@.extra_env =~= Seq::<(Seq<char>, Seq<char>)>::empty());
        assert(r@.env_to_remove =~= Seq::<Seq<char>>::empty());
        assert(r@.test_args =~= Seq::<Seq<char>>::empty());
        r
    }

    fn bang(&mut self, a: &str)
        ensures
            final(self)@ == bang_token(old(self)@, a@),
    {
        if str_eq(a, "!env") {
            self.remove_env = true;
        } else if str_eq(a, "!#") || str_eq(a, "!/") || str_eq(a, "!test") {
            self.remove_test_args = true;
        } else if str_eq(a, "!args") || str_eq(a, "!features") || str_eq(a, "!") {
            self.remove_args = true;
        } else if str_eq(a, "!command") || str_eq(a, "!cmd") {
            self.remove_command = true;
        } else if str_eq(a, "!subcommand") || str_eq(a, "!sub") {
            self.remove_subcommand = true;
        } else if str_eq(a, "!channel") || str_eq(a, "!ch") {
            self.remove_channel = true;
        } else {
            push_string(&mut self.extra_args, owned(a));
        }
    }

    fn dash(&mut self, a: &str)
        requires
            a@.len() > 0,
        ensures
            final(self)@ == dash_token(old(self)@, a@),
    {
        if str_eq(a, "-command") || str_eq(a, "-cmd") {
            self.remove_command = true;
        } else if str_eq(a, "-subcommand") || str_eq(a, "-sub") {
            self.remove_subcommand = true;
        } else if str_eq(a, "-channel") || str_eq(a, "-ch") {
            self.remove_channel = true;
        } else if str_eq(a, "-arg") {
            self.remove_args = true;
        } else if str_eq(a, "-env") {
            self.remove_env = true;
        } else if str_eq(a, "-test") || str_eq(a, "-/") {
            self.remove_test_args = true;
        } else {
            let n = a.unicode_len();
            if env_name_chars_in(a, 1, n) && n > 1 {
                push_string(&mut self.env_to_remove, slice_from(a, 1));
            }
        }
    }

    fn at(&mut self, t: &str)
        ensures
            final(self)@ == at_token(old(self)@, t@),
    {
        let n = t.unicode_len();
        let dot = position_of(t, '.');
        if dot == 0 {
            return;
        }
        let cmd = slice(t, 0, dot);
        if dot < n {
            let rest = slice_from(t, dot + 1);
            let sub = dots_to_spaces(rest.as_str());
            if str_eq(cmd.as_str(), "cargo") {
                self.subcommand = Some(sub);
            } else {
                self.command = Some(cmd);
                self.subcommand = Some(sub);
            }
        } else {
            self.command = Some(cmd);
        }
    }

    /// Reads one token other than one that introduces test binary arguments.
    fn token(&mut self, a: &str, first: bool)
        ensures
            final(self)@ == step(old(self)@, a@, first),
    {
        let n = a.unicode_len();
        if first && str_eq(a, "@") {
            self.append = true;
        } else if str_eq(a, "!!") || str_eq(a, "-") {
            self.remove_override = true;
        } else if n > 1 && a.get_char(0) == '!' {
            self.bang(a);
        } else if n > 0 && a.get_char(0) == '-' && !(n > 1 && a.get_char(1) == '-') {
            self.dash(a);
        } else if n > 0 && a.get_char(0) == '@' {
            let t = slice_from(a, 1);
            self.at(t.as_str());
        } else if n > 1 && a.get_char(0) == '+' {
            self.channel = Some(slice_from(a, 1));
        } else {
            let eq = position_of(a, '=');
            if eq < n && env_name_chars_in(a, 0, eq) {
                if eq > 0 {
                    proof {
                        lemma_position_from(a@, '=', 0);
                    }
                    env_set(&mut self.extra_env, slice(a, 0, eq), slice_from(a, eq + 1));
                }
            } else {
                push_string(&mut self.extra_args, owned(a));
            }
        }
    }

    fn finish(self) -> (r: ParsedOverride)
        ensures
            r@ == outcome(self@),
    {
        if self.remove_override {
            return ParsedOverride {
                remove_override: true,
                append: false,
                command: None,
                remove_command: false,
                subcommand: None,
                remove_subcommand: false,
                channel: None,
                remove_channel: false,
                extra_args: None,
                remove_args: false,
                extra_env: None,
                remove_env: false,
                remove_env_keys: None,
                extra_test_binary_args: None,
                remove_test_args: false,
            };
        }
        let remove_command = self.command.is_none() && self.remove_command;
        let remove_subcommand = self.subcommand.is_none() && self.remove_subcommand;
        let remove_channel = self.channel.is_none() && self.remove_channel;
        let command = if self.remove_command { None } else { self.command };
        let subcommand = if self.remove_subcommand { None } else { self.subcommand };
        let channel = if self.remove_channel { None } else { self.channel };
        let extra_args = if self.extra_args.len() > 0 && !self.remove_args {
            Some(self.extra_args)
        } else {
            None
        };
        let extra_env = if self.extra_env.len() > 0 && !self.remove_env {
            Some(self.extra_env)
        } else {
            None
        };
        let remove_env_keys = if self.env_to_remove.len() > 0 {
            Some(self.env_to_remove)
        } else {
            None
        };
        let extra_test_binary_args = if self.test_args.len() > 0 && !self.remove_test_args {
            Some(self.test_args)
        } else {
            None
        };
        ParsedOverride {
            remove_override: false,
            append: self.append,
            command,
            remove_command,
            subcommand,
            remove_subcommand,
            channel,
            remove_channel,
            extra_args,
            remove_args: self.remove_args,
            extra_env,
            remove_env: self.remove_env,
            remove_env_keys,
            extra_test_binary_args,
            remove_test_args: self.remove_test_args,
        }
    }
}

/// Reads override tokens.
pub struct OverrideManager;

impl OverrideManager {
    /// Reads override tokens into the override they ask for:
    /// `@cmd.sub` sets the command and subcommand (`@cargo.sub` only the
    /// subcommand); a bare `@` as the first token asks to merge with the
    /// existing override; `+channel` sets the toolchain channel; `KEY=value`
    /// sets an environment variable; `/args…` or `#args…` start the test
    /// binary arguments, which take every later token; `-command`, `-env`,
    /// `-arg`, `-test`, `-/` (and their short forms) remove fields, `-KEY`
    /// removes a variable; `!env`, `!#`, `!/`, `!args`, `!features` are the
    /// older resets; `!!` or `-` removes the whole override; anything else is
    /// an extra argument.
    pub fn parse_override_args(args: &[String]) -> (r: ParsedOverride)
        ensures
            r@ == outcome(scan(args.deep_view(), 0, empty_scan())),
    {
        let ghost av = args.deep_view();
        let ghost goal = scan(av, 0, empty_scan());
        let mut st = Scanner::new();
        let mut i: usize = 0;
        while i < args.len()
            invariant
                i <= args.len(),
                av == args.deep_view(),
                av.len() == args.len(),
                scan(av, i as int, st@) == goal,
            decreases args.len() - i,
        {
            let a = args[i].as_str();
            assert(a@ == av[i as int]);
            let n = a.unicode_len();
            if n > 0 && (a.get_char(0) == '/' || a.get_char(0) == '#') {
                let ghost before = st@;
                if n > 1 {
                    push_string(&mut st.test_args, slice_from(a, 1));
                }
                let ghost with_head = st@;
                assert(with_head == OverrideScan {
                    test_args: if a@.subrange(1, n as int).len() > 0 {
                        before.test_args.push(a@.subrange(1, n as int))
                    } else {
                        before.test_args
                    },
                    ..before
                });
                let mut j: usize = i + 1;
                assert(av.subrange(i + 1, j as int) =~= Seq::<Seq<char>>::empty());
                assert(with_head.test_args + av.subrange(i + 1, j as int) =~= with_head.test_args);
                while j < args.len()
                    invariant
                        i < j <= args.len(),
                        av == args.deep_view(),
                        av.len() == args.len(),
                        st@ == (OverrideScan {
                            test_args: with_head.test_args + av.subrange(i + 1, j as int),
                            ..with_head
                        }),
                    decreases args.len() - j,
                {
                    let s = args[j].clone();
                    assert(s@ == av[j as int]);
                    let ghost prev = st@.test_args;
                    push_string(&mut st.test_args, s);
                    assert(with_head.test_args + av.subrange(i + 1, j + 1) =~= prev.push(av[j as int]));
                    j = j + 1;
                }
                assert(st@ == scan(av, i as int, before));
                i = args.len();
            } else {
                st.token(a, i == 0);
                i = i + 1;
            }
        }
        st.finish()
    }
}

/// Once the whole override is removed, later tokens do not bring it back.
pub proof fn lemma_removal_is_kept(args: Seq<Seq<char>>, i: int, st: OverrideScan)
    requires
        st.remove_override,
    ensures
        scan(args, i, st).remove_override,
    decreases args.len() - i,
{
    if i < args.len() && !is_test_args_token(args[i]) {
        let next = step(st, args[i], i == 0);
        assert(next.remove_override);
        lemma_removal_is_kept(args, i + 1, next);
    }
}

proof fn lemma_removal_token_from(args: Seq<Seq<char>>, j: int, k: int, st: OverrideScan)
    requires
        0 <= j <= k < args.len(),
        args[k] == "!!"@ || args[k] == "-"@,
        forall|m: int| j <= m <= k ==> !is_test_args_token(#[trigger] args[m]),
    ensures
        scan(args, j, st).remove_override,
    decreases k - j,
{
    assert(!is_test_args_token(args[j]));
    if j == k {
        reveal_strlit("@");
        reveal_strlit("!!");
        reveal_strlit("-");
        assert(args[k][0] != '@');
        let next = step(st, args[k], k == 0);
        assert(next.remove_override);
        lemma_removal_is_kept(args, k + 1, next);
    } else {
        lemma_removal_token_from(args, j + 1, k, step(st, args[j], j == 0));
    }
}

/// A `!!` or `-` token before the test binary arguments removes the whole
/// override, whatever the other tokens say.
pub proof fn lemma_removal_token_wins(args: Seq<Seq<char>>, k: int)
    requires
        0 <= k < args.len(),
        args[k] == "!!"@ || args[k] == "-"@,
        forall|m: int| 0 <= m <= k ==> !is_test_args_token(#[trigger] args[m]),
    ensures
        outcome(scan(args, 0, empty_scan())) == removal_only(),
{
    lemma_removal_token_from(args, 0, k, empty_scan());
}

proof fn lemma_hash_alias_from(args: Seq<Seq<char>>, i: int, tail: Seq<char>, j: int, st: OverrideScan)
    requires
        0 <= j <= i < args.len(),
        args[i] == seq!['/'] + tail,
        forall|m: int| 0 <= m < i ==> !is_test_args_token(#[trigger] args[m]),
    ensures
        scan(args, j, st) == scan(args.update(i, seq!['#'] + tail), j, st),
    decreases i - j,
{
    let other = args.update(i, seq!['#'] + tail);
    assert(other[j] == args[j] || j == i);
    if j == i {
        assert(args[i][0] == '/');
        assert(other[i][0] == '#');
        assert(is_test_args_token(args[i]));
        assert(is_test_args_token(other[i]));
        assert(args[i].subrange(1, args[i].len() as int) =~= tail);
        assert(other[i].subrange(1, other[i].len() as int) =~= tail);
        assert(args.subrange(i + 1, args.len() as int) =~= other.subrange(i + 1, other.len() as int));
    } else {
        assert(other[j] == args[j]);
        assert(!is_test_args_token(args[j]));
        lemma_hash_alias_from(args, i, tail, j + 1, step(st, args[j], j == 0));
    }
}

/// `#` is another spelling of `/`: the token that starts the test binary
/// arguments with `/` reads the same when it starts with `#`.
pub proof fn lemma_hash_is_slash(args: Seq<Seq<char>>, i: int, tail: Seq<char>)
    requires
        0 <= i < args.len(),
        args[i] == seq!['/'] + tail,
        forall|m: int| 0 <= m < i ==> !is_test_args_token(#[trigger] args[m]),
    ensures
        outcome(scan(args, 0, empty_scan())) == outcome(scan(args.update(i, seq!['#'] + tail), 0, empty_scan())),
{
    lemma_hash_alias_from(args, i, tail, 0, empty_scan());
}

} // verus!
