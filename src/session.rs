//! The two prompts of a session: one that asks for a pattern, and one that
//! tests lines against the pattern last compiled.
use vstd::prelude::*;
use crate::clock::{clock_now, time_between};
use crate::command::{
    applied, apply_command, command_message, command_of, message_of, parse_command,
    Action, Command,
};
use crate::config::{Config, Flag};
use crate::decimal::{decimal, decimal_string, signed_decimal, signed_decimal_string};
use crate::pattern::{groups_view, regex_compiles, regex_finds, regex_groups, Pattern};

verus! {

/// The view of a list of output lines.
pub open spec fn lines_view(v: Seq<String>) -> Seq<Seq<char>> {
    v.map_values(|s: String| s@)
}

/// The report on a test line, without capture groups.
pub open spec fn match_lines(matched: bool) -> Seq<Seq<char>> {
    if matched {
        seq!["Matched"@]
    } else {
        seq!["Failed to match"@]
    }
}

/// The line that shows capture group `i`.
pub open spec fn capture_line(i: nat, g: Option<Seq<char>>) -> Seq<char> {
    decimal(i) + ": "@ + match g {
        Some(s) => s,
        None => "None"@,
    }
}

/// The report on a match, with its capture groups.
pub open spec fn capture_lines(groups: Seq<Option<Seq<char>>>) -> Seq<Seq<char>> {
    seq!["Captures:"@] + Seq::new(groups.len(), |i: int| capture_line(i as nat, groups[i]))
}

/// The report on testing `text` against `pattern`.
pub open spec fn test_lines(show_groups: bool, pattern: Seq<char>, text: Seq<char>) -> Seq<Seq<char>> {
    if show_groups {
        match regex_groups(pattern, text) {
            Some(g) => capture_lines(g),
            None => seq!["Failed to match"@],
        }
    } else {
        match_lines(regex_finds(pattern, text))
    }
}

/// The line that reports a compile time of `n` nanoseconds.
pub open spec fn compile_time_line(n: int) -> Seq<char> {
    "Regex compiled in "@ + signed_decimal(n) + "ns"@
}

/// The report on a pattern that did not compile.
pub open spec fn compile_error_lines(verbose: bool, detail: Seq<char>) -> Seq<Seq<char>> {
    if verbose {
        seq!["Error compiling regex: "@ + detail]
    } else {
        seq!["Failed to compile regex"@, "Turn on verbose errors with :v"@]
    }
}

/// The prompt shown while asking for a pattern (`None`) or while testing
/// lines against a pattern.
pub open spec fn prompt_of(pattern: Option<Seq<char>>) -> Seq<char> {
    match pattern {
        None => "Input> "@,
        Some(p) => "Regex("@ + p + ")> "@,
    }
}

/// The report on a test line, without capture groups.
pub fn match_report(matched: bool) -> (r: Vec<String>)
    ensures
        lines_view(r@) == match_lines(matched),
{
    let line = if matched {
        String::from_str("Matched")
    } else {
        String::from_str("Failed to match")
    };
    let r = vec![line];
    assert(lines_view(r@) =~= match_lines(matched));
    r
}

/// The report on a match with its capture groups, group zero first: a
/// heading, then one line per group with its number and its text, or `None`
/// for a group that took no part in the match.
pub fn capture_report(groups: &Vec<Option<String>>) -> (r: Vec<String>)
    ensures
        lines_view(r@) == capture_lines(groups_view(groups@)),
{
    let ghost gv = groups_view(groups@);
    let mut out: Vec<String> = Vec::new();
    out.push(String::from_str("Captures:"));
    let n = groups.len();
    let mut i: usize = 0;
    while i < n
        invariant
            n == groups@.len(),
            i <= n,
            gv == groups_view(groups@),
            out@.len() == i + 1,
            out@[0]@ == "Captures:"@,
            forall|j: int| 0 <= j < i ==> #[trigger] out@[j + 1]@ == capture_line(j as nat, gv[j]),
        decreases n - i,
    {
        let mut line = decimal_string(i as u64);
        line.append(": ");
        match &groups[i] {
            Some(s) => line.append(s.as_str()),
            None => line.append("None"),
        }
        assert(line@ == capture_line(i as nat, gv[i as int]));
        out.push(line);
        i = i + 1;
    }
    assert(lines_view(out@) =~= capture_lines(gv)) by {
        assert forall|j: int| 1 <= j < out@.len() implies lines_view(out@)[j] == capture_lines(gv)[j] by {
            assert(out@[(j - 1) + 1]@ == capture_line((j - 1) as nat, gv[j - 1]));
        }
    }
    out
}

/// The line that reports the compile time: the nanoseconds where they were
/// measured, else the milliseconds.
pub fn compile_time_report(nanos: Option<i64>, millis: i64) -> (r: String)
    ensures
        r@ == compile_time_line(
            match nanos {
                Some(n) => n as int,
                None => millis as int,
            },
        ),
{
    let n = match nanos {
        Some(x) => x,
        None => millis,
    };
    let mut line = String::from_str("Regex compiled in ");
    let digits = signed_decimal_string(n);
    line.append(digits.as_str());
    line.append("ns");
    line
}

/// The report on a pattern that did not compile: the engine's description
/// where verbose errors are on, else a hint on how to turn them on.
pub fn compile_error_report(verbose: bool, detail: &str) -> (r: Vec<String>)
    ensures
        lines_view(r@) == compile_error_lines(verbose, detail@),
{
    let r = if verbose {
        let mut line = String::from_str("Error compiling regex: ");
        line.append(detail);
        vec![line]
    } else {
        vec![String::from_str("Failed to compile regex"), String::from_str("Turn on verbose errors with :v")]
    };
    assert(lines_view(r@) =~= compile_error_lines(verbose, detail@));
    r
}

/// Tests `text` against `pattern`: the capture groups where `show_groups`,
/// else only whether it matched.
pub fn test_line(show_groups: bool, pattern: &Pattern, text: &str) -> (r: Vec<String>)
    ensures
        lines_view(r@) == test_lines(show_groups, pattern.source_view(), text@),
{
    if show_groups {
        match pattern.captures(text) {
            Some(g) => capture_report(&g),
            None => match_report(false),
        }
    } else {
        match_report(pattern.is_match(text))
    }
}

/// The note shown after command `c`, as lines.
pub open spec fn menu_lines(c: Command, cfg: Config) -> Seq<Seq<char>> {
    match message_of(c, cfg) {
        Some(m) => seq![m],
        None => seq![],
    }
}

/// What one line does to a session: `before` and `after` are the options
/// and the current pattern (`None` while asking for one), `out` the lines
/// printed and `exit` whether the session ends.
pub open spec fn step(
    cfg: Config,
    pattern: Option<Seq<char>>,
    line: Seq<char>,
    cfg2: Config,
    pattern2: Option<Seq<char>>,
    out: Seq<Seq<char>>,
    exit: bool,
) -> bool {
    match command_of(line) {
        Some(c) => {
            &&& applied(c, cfg, cfg2)
            &&& exit == (c == Command::Quit)
            &&& out == menu_lines(c, cfg2)
            &&& pattern2 == if c == Command::Back {
                None
            } else {
                pattern
            }
        },
        None => {
            &&& cfg2 == cfg
            &&& !exit
            &&& match pattern {
                Some(p) => pattern2 == pattern && out == test_lines(
                    cfg.has(Flag::CaptureGroups),
                    p,
                    line,
                ),
                None => if regex_compiles(line) {
                    &&& pattern2 == Some(line)
                    &&& if cfg.has(Flag::CompileTime) {
                        exists|n: int| out == seq![compile_time_line(n)]
                    } else {
                        out.len() == 0
                    }
                } else {
                    &&& pattern2.is_none()
                    &&& exists|d: Seq<char>| out == compile_error_lines(cfg.has(Flag::VerboseErrors), d)
                },
            }
        },
    }
}

/// What a session hands back for one line.
pub struct Reply {
    /// The lines to print, in order.
    pub lines: Vec<String>,
    /// Whether the session has ended.
    pub exit: bool,
}

/// The state of an interactive session: the options and the pattern that
/// lines are tested against, if one has been compiled.
pub struct Session {
    config: Config,
    pattern: Option<Pattern>,
}

impl Session {
    /// The current options.
    pub closed spec fn spec_config(&self) -> Config {
        self.config
    }

    /// The source of the pattern under test, or `None` while a pattern is
    /// asked for.
    pub closed spec fn current(&self) -> Option<Seq<char>> {
        match self.pattern {
            Some(p) => Some(p.source_view()),
            None => None,
        }
    }

    /// A session that starts by asking for a pattern.
    pub fn new(config: Config) -> (r: Session)
        ensures
            r.spec_config() == config,
            r.current().is_none(),
    {
        Session { config, pattern: None }
    }

    /// The current options.
    pub fn config(&self) -> (r: Config)
        ensures
            r == self.spec_config(),
    {
        self.config
    }

    /// The prompt to show before the next line: `Input> ` while asking for a
    /// pattern, `Regex(<pattern>)> ` while testing lines against one.
    pub fn prompt(&self) -> (r: String)
        ensures
            r@ == prompt_of(self.current()),
    {
        match &self.pattern {
            None => String::from_str("Input> "),
            Some(p) => {
                let mut s = String::from_str("Regex(");
                s.append(p.as_str());
                s.append(")> ");
                s
            },
        }
    }

    /// Handles one line typed at the current prompt: a command changes the
    /// options or the prompt; any other line is compiled as a pattern or
    /// tested against the current one.
    pub fn handle_line(&mut self, line: &str) -> (r: Reply)
        ensures
            step(
                old(self).spec_config(),
                old(self).current(),
                line@,
                final(self).spec_config(),
                final(self).current(),
                lines_view(r.lines@),
                r.exit,
            ),
    {
        match parse_command(line) {
            Some(c) => {
                let action = apply_command(c, &mut self.config);
                let mut lines: Vec<String> = Vec::new();
                match command_message(c, &self.config) {
                    Some(m) => lines.push(String::from_str(m)),
                    None => {},
                }
                if action == Action::ToRegexPrompt {
                    self.pattern = None;
                }
                assert(lines_view(lines@) =~= menu_lines(c, self.config));
                Reply { lines, exit: action == Action::Exit }
            },
            None => {
                let show_groups = self.config.contains(Flag::CaptureGroups);
                match &self.pattern {
                    Some(p) => {
                        let lines = test_line(show_groups, p, line);
                        return Reply { lines, exit: false };
                    },
                    None => {},
                }
                let start = clock_now();
                match Pattern::new(line) {
                    Ok(p) => {
                        let end = clock_now();
                        let mut lines: Vec<String> = Vec::new();
                        if self.config.contains(Flag::CompileTime) {
                            let d = time_between(&start, &end);
                            let nanos = d.num_nanoseconds();
                            let millis = d.num_milliseconds();
                            let l = compile_time_report(nanos, millis);
                            lines.push(l);
                            let ghost n = match nanos {
                                Some(x) => x as int,
                                None => millis as int,
                            };
                            assert(lines_view(lines@) =~= seq![compile_time_line(n)]);
                        } else {
                            assert(lines_view(lines@) =~= seq![]);
                        }
                        self.pattern = Some(p);
                        Reply { lines, exit: false }
                    },
                    Err(e) => {
                        let verbose = self.config.contains(Flag::VerboseErrors);
                        let lines = compile_error_report(verbose, e.detail.as_str());
                        Reply { lines, exit: false }
                    },
                }
            },
        }
    }
}

} // verus!
