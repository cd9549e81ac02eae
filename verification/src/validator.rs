use crate::error::ControlError;
use crate::text::{
    chars_of, contains, contains_str, decimal_string, decimal_text, ends_with, ends_with_chars,
    is_space, is_whitespace,
};
use vstd::prelude::*;

verus! {

/// What a run of the engine in check mode left behind.
#[derive(Debug, Clone, PartialEq, Eq)]
pub struct CoreRun {
    /// Whether the process exited with success.
    pub succeeded: bool,
    /// Its exit code, unless a signal ended it.
    pub exit_code: Option<i32>,
    /// What it wrote to standard output.
    pub stdout: String,
    /// What it wrote to standard error.
    pub stderr: String,
}

/// Whether the characters of `text` from `a` up to `b` are one line of
/// it: they hold no line feed, and a line feed or an end of the text
/// stands on either side.
pub open spec fn is_line(text: Seq<char>, a: int, b: int) -> bool {
    &&& 0 <= a <= b <= text.len()
    &&& a == 0 || text[a - 1] == '\n'
    &&& b == text.len() || text[b] == '\n'
    &&& forall|k: int| a <= k < b ==> text[k] != '\n'
}

/// Whether a line, with white space trimmed off both ends, begins with a
/// hyphen and a space: the hyphen is the first character that is not
/// white space, a space follows it, and something other than white space
/// follows that.
pub open spec fn is_list_item(line: Seq<char>) -> bool {
    exists|p: int, q: int| item_at(line, p, q)
}

/// Whether `line` has its hyphen at `p` and something other than white
/// space at `q`, behind the space that follows the hyphen.
pub open spec fn item_at(line: Seq<char>, p: int, q: int) -> bool {
    &&& 0 <= p
    &&& p + 1 < q < line.len()
    &&& line[p] == '-'
    &&& line[p + 1] == ' '
    &&& !is_whitespace(line[q])
    &&& forall|k: int| 0 <= k < p ==> is_whitespace(#[trigger] line[k])
}

/// Whether some line of `text` is a list item.
pub open spec fn has_list_item(text: Seq<char>) -> bool {
    exists|a: int, b: int| is_line(text, a, b) && is_list_item(#[trigger] text.subrange(a, b))
}

/// Whether a text shows traits of YAML.
pub open spec fn has_yaml_features(text: Seq<char>) -> bool {
    contains(text, ": "@) || contains(text, "#"@) || contains(text, "---"@) || has_list_item(text)
}

/// Whether a text shows traits of a script.
pub open spec fn has_js_features(text: Seq<char>) -> bool {
    contains(text, "function "@) || contains(text, "const "@) || contains(text, "let "@)
        || contains(text, "var "@) || contains(text, "//"@) || contains(text, "/*"@) || contains(
        text,
        "export "@,
    ) || contains(text, "import "@)
}

/// Whether a text holds what only a script has: an entry point or an
/// export.
pub open spec fn has_entry_point(text: Seq<char>) -> bool {
    contains(text, "function main"@) || contains(text, "module.exports"@) || contains(
        text,
        "export default"@,
    )
}

/// Whether a text is taken for a script. It is where it shows traits of a
/// script and either no traits of YAML or an entry point. A text that
/// shows both and has no entry point, or shows neither, is taken for
/// YAML: what is ambiguous is not run.
pub open spec fn looks_like_script(text: Seq<char>) -> bool {
    has_js_features(text) && (!has_yaml_features(text) || has_entry_point(text))
}

/// What the extension of a path says: YAML for `.yaml` and `.yml`, a
/// script for `.js`, nothing for any other.
pub open spec fn extension_says(path: Seq<char>) -> Option<bool> {
    if ends_with(path, ".yaml"@) || ends_with(path, ".yml"@) {
        Some(false)
    } else if ends_with(path, ".js"@) {
        Some(true)
    } else {
        None
    }
}

/// What the YAML parser says of a text: `None` where it parses, else the
/// parser's message. The message is that of `serde_yaml_ng` and depends on
/// the text alone.
pub uninterp spec fn yaml_syntax_error(content: Seq<char>) -> Option<Seq<char>>;

/// Parses `content` with `serde_yaml_ng::from_str` into a YAML value and
/// hands back the parser's message where it fails. The contract only names
/// the result.
#[verifier::external_body]
fn yaml_parse_error(content: &str) -> (error: Option<String>)
    ensures
        error.deep_view() == yaml_syntax_error(content@),
{
    match serde_yaml_ng::from_str::<serde_yaml_ng::Value>(content) {
        Ok(_) => None,
        Err(error) => Some(error.to_string()),
    }
}

/// The verdict on a text of which the parser said `error`.
pub open spec fn yaml_verdict_of(error: Option<Seq<char>>) -> (bool, Seq<char>) {
    match error {
        None => (true, Seq::empty()),
        Some(message) => (false, "YAML syntax error: "@ + message),
    }
}

/// The verdict on a script that the script engine evaluated with
/// `eval_error`.
pub open spec fn script_verdict_of(content: Seq<char>, eval_error: Option<Seq<char>>) -> (
    bool,
    Seq<char>,
) {
    match eval_error {
        Some(message) => (false, "Script syntax error: "@ + message),
        None => if contains(content, "function main"@) || contains(content, "const main"@)
            || contains(content, "let main"@) {
            (true, Seq::empty())
        } else {
            (false, "Script must contain a main function"@)
        },
    }
}

/// Whether a run of the engine in check mode shows an error: it did not
/// exit with success, or its standard error names a fatal one.
pub open spec fn core_run_failed(succeeded: bool, stderr: Seq<char>) -> bool {
    !succeeded || contains(stderr, "FATA"@) || contains(stderr, "fatal"@) || contains(
        stderr,
        "Parse config error"@,
    ) || contains(stderr, "level=fatal"@)
}

/// A whole number in decimal digits, with a minus sign where it is
/// negative.
pub open spec fn signed_decimal_text(number: int) -> Seq<char> {
    if number < 0 {
        "-"@ + decimal_text((-number) as nat)
    } else {
        decimal_text(number as nat)
    }
}

/// The message of a run that failed: what it wrote to standard output,
/// else what it wrote to standard error, else its exit code, else the
/// word that it was terminated.
pub open spec fn core_failure_text(
    exit_code: Option<i32>,
    stdout: Seq<char>,
    stderr: Seq<char>,
) -> Seq<char> {
    if stdout.len() > 0 {
        stdout
    } else if stderr.len() > 0 {
        stderr
    } else {
        match exit_code {
            Some(code) => "验证进程异常退出，退出码: "@ + signed_decimal_text(code as int),
            None => "验证进程被终止"@,
        }
    }
}

/// Whether the line of `text` from `a` up to `b` is a list item.
fn line_is_list_item(text: &Vec<char>, a: usize, b: usize) -> (r: bool)
    requires
        a <= b <= text.len(),
    ensures
        r == is_list_item(text@.subrange(a as int, b as int)),
{
    let ghost line = text@.subrange(a as int, b as int);
    let mut p = a;
    while p < b && is_space(text[p])
        invariant
            a <= p <= b <= text.len(),
            line == text@.subrange(a as int, b as int),
            forall|k: int| 0 <= k < p - a ==> is_whitespace(#[trigger] line[k]),
        decreases b - p,
    {
        assert(line[p - a] == text[p as int]);
        p += 1;
    }
    // `p` is the first character of the line that is not white space
    proof {
        if p < b {
            assert(line[p - a] == text[p as int]);
        }
        assert forall|p2: int, q2: int| item_at(line, p2, q2) implies p2 == p - a by {
            if p2 < p - a {
                assert(is_whitespace(line[p2]));
            } else if p2 > p - a {
                assert(is_whitespace(line[p - a]));
            }
        }
    }
    if p >= b || b - p < 2 {
        return false;
    }
    assert(line[p - a] == text[p as int]);
    assert(line[p - a + 1] == text[p + 1]);
    if text[p] != '-' || text[p + 1] != ' ' {
        return false;
    }
    let mut q = p + 2;
    while q < b && is_space(text[q])
        invariant
            p + 2 <= q <= b <= text.len(),
            a <= p,
            line == text@.subrange(a as int, b as int),
            forall|k: int| p + 2 - a <= k < q - a ==> is_whitespace(#[trigger] line[k]),
        decreases b - q,
    {
        assert(line[q - a] == text[q as int]);
        q += 1;
    }
    if q < b {
        assert(line[q - a] == text[q as int]);
        assert(item_at(line, p - a, q - a));
        true
    } else {
        assert forall|p2: int, q2: int| !item_at(line, p2, q2) by {
            if item_at(line, p2, q2) {
                assert(p2 == p - a);
                assert(is_whitespace(line[q2]));
            }
        }
        false
    }
}

/// Whether some line of `text` is a list item.
fn text_has_list_item(text: &Vec<char>) -> (r: bool)
    ensures
        r == has_list_item(text@),
{
    let n = text.len();
    let mut start: usize = 0;
    loop
        invariant
            start <= n,
            n == text.len(),
            start == 0 || text[start - 1] == '\n',
            forall|a: int, b: int|
                is_line(text@, a, b) && a < start ==> !is_list_item(
                    #[trigger] text@.subrange(a, b),
                ),
        ensures
            forall|a: int, b: int|
                is_line(text@, a, b) ==> !is_list_item(#[trigger] text@.subrange(a, b)),
        decreases n - start,
    {
        let mut end = start;
        while end < n && text[end] != '\n'
            invariant
                start <= end <= n,
                n == text.len(),
                forall|k: int| start <= k < end ==> text[k] != '\n',
            decreases n - end,
        {
            end += 1;
        }
        assert(is_line(text@, start as int, end as int));
        let found = line_is_list_item(text, start, end);
        if found {
            return true;
        }
        proof {
            assert forall|a: int, b: int| is_line(text@, a, b) && a <= end implies !is_list_item(
                #[trigger] text@.subrange(a, b),
            ) by {
                if a >= start {
                    if a > start {
                        assert(text[a - 1] != '\n');
                    }
                    if b < end {
                        assert(text[b] != '\n');
                    }
                    if b > end {
                        assert(text[end as int] == '\n');
                    }
                    assert(a == start && b == end);
                }
            }
        }
        if end >= n {
            break ;
        }
        start = end + 1;
    }
    false
}

/// Decides whether a configuration file is a script or YAML, and checks
/// what the parsers and the engine say of it.
pub struct ConfigValidator;

impl ConfigValidator {
    /// What the extension of `path` says of the file: a script,
    /// YAML, or nothing.
    pub fn script_by_extension(path: &str) -> (kind: Option<bool>)
        ensures
            kind == extension_says(path@),
    {
        let chars = chars_of(path);
        let yaml = chars_of(".yaml");
        let yml = chars_of(".yml");
        let js = chars_of(".js");
        if ends_with_chars(&chars, &yaml) || ends_with_chars(&chars, &yml) {
            Some(false)
        } else if ends_with_chars(&chars, &js) {
            Some(true)
        } else {
            None
        }
    }

    /// Whether a text is taken for a script, going by its content.
    pub fn is_script_content(content: &str) -> (script: bool)
        ensures
            script == looks_like_script(content@),
    {
        let text = chars_of(content);
        let yaml = contains_str(&text, ": ") || contains_str(&text, "#") || contains_str(
            &text,
            "---",
        ) || text_has_list_item(&text);
        let js = contains_str(&text, "function ") || contains_str(&text, "const ")
            || contains_str(&text, "let ") || contains_str(&text, "var ") || contains_str(
            &text,
            "//",
        ) || contains_str(&text, "/*") || contains_str(&text, "export ") || contains_str(
            &text,
            "import ",
        );
        if yaml && !js {
            false
        } else if js && !yaml {
            true
        } else if yaml && js {
            contains_str(&text, "function main") || contains_str(&text, "module.exports")
                || contains_str(&text, "export default")
        } else {
            false
        }
    }

    /// Whether the file at `path` is a script.
    ///
    /// The extension decides where it says anything. Where it does not,
    /// the content decides; `content` is what reading the file gave, and
    /// is looked at in that case only. A file that could not be read then
    /// is an error.
    pub fn is_script_file(path: &str, content: Result<String, String>) -> (r: Result<
        bool,
        ControlError,
    >)
        ensures
            match extension_says(path@) {
                Some(kind) => r == Ok::<bool, ControlError>(kind),
                None => match content {
                    Ok(text) => r == Ok::<bool, ControlError>(looks_like_script(text@)),
                    Err(reason) => r matches Err(ControlError::TransientLookupFailure(message))
                        && message@ == "Failed to read file to detect type: "@ + reason@,
                },
            },
    {
        match Self::script_by_extension(path) {
            Some(kind) => Ok(kind),
            None => match content {
                Ok(text) => Ok(Self::is_script_content(text.as_str())),
                Err(reason) => {
                    let mut message = String::from_str("Failed to read file to detect type: ");
                    message.append(reason.as_str());
                    Err(ControlError::TransientLookupFailure(message))
                },
            },
        }
    }

    /// The verdict on a text of which the YAML parser said `error`:
    /// valid without one, else invalid with the parser's message.
    pub fn yaml_verdict(error: Option<String>) -> (verdict: (bool, String))
        ensures
            (verdict.0, verdict.1@) == yaml_verdict_of(error.deep_view()),
    {
        match error {
            None => (true, String::new()),
            Some(message) => {
                let mut text = String::from_str("YAML syntax error: ");
                text.append(message.as_str());
                (false, text)
            },
        }
    }

    /// Checks that a text is well-formed YAML.
    pub fn validate_yaml_syntax(content: &str) -> (verdict: (bool, String))
        ensures
            (verdict.0, verdict.1@) == yaml_verdict_of(yaml_syntax_error(content@)),
    {
        Self::yaml_verdict(yaml_parse_error(content))
    }

    /// The verdict on a script that the script engine has evaluated:
    /// `eval_error` is what the engine threw, if anything. A script that
    /// evaluates is valid only where it holds a `main` function.
    pub fn validate_script_file(content: &str, eval_error: Option<String>) -> (verdict: (
        bool,
        String,
    ))
        ensures
            (verdict.0, verdict.1@) == script_verdict_of(content@, eval_error.deep_view()),
    {
        match eval_error {
            Some(message) => {
                let mut text = String::from_str("Script syntax error: ");
                text.append(message.as_str());
                (false, text)
            },
            None => {
                let text = chars_of(content);
                if !contains_str(&text, "function main") && !contains_str(&text, "const main")
                    && !contains_str(&text, "let main") {
                    (false, String::from_str("Script must contain a main function"))
                } else {
                    (true, String::new())
                }
            },
        }
    }

    /// The arguments with which the engine checks a configuration file.
    pub fn core_check_args(app_dir: &str, config_path: &str) -> (args: Vec<String>)
        ensures
            args.deep_view() == seq!["-t"@, "-d"@, app_dir@, "-f"@, config_path@],
    {
        let mut args: Vec<String> = Vec::new();
        args.push(String::from_str("-t"));
        args.push(String::from_str("-d"));
        args.push(String::from_str(app_dir));
        args.push(String::from_str("-f"));
        args.push(String::from_str(config_path));
        assert(args.deep_view() =~= seq!["-t"@, "-d"@, app_dir@, "-f"@, config_path@]);
        args
    }

    /// The verdict that stands in for a check by the engine while the
    /// application shuts down: the check is skipped and the file counts as
    /// valid. `None` says that the check is to be made.
    pub fn skip_core_validation(exiting: bool) -> (verdict: Option<(bool, String)>)
        ensures
            exiting ==> {
                &&& verdict matches Some(v)
                &&& v.0
                &&& v.1@ == Seq::<char>::empty()
            },
            !exiting ==> verdict.is_none(),
    {
        if exiting {
            Some((true, String::new()))
        } else {
            None
        }
    }

    /// The verdict on a configuration file that the engine has checked.
    pub fn validate_with_core(run: &CoreRun) -> (verdict: (bool, String))
        ensures
            core_run_failed(run.succeeded, run.stderr@) ==> !verdict.0 && verdict.1@
                == core_failure_text(run.exit_code, run.stdout@, run.stderr@),
            !core_run_failed(run.succeeded, run.stderr@) ==> verdict.0 && verdict.1@ == Seq::<
                char,
            >::empty(),
    {
        let stderr = chars_of(run.stderr.as_str());
        let has_error = !run.succeeded || contains_str(&stderr, "FATA") || contains_str(
            &stderr,
            "fatal",
        ) || contains_str(&stderr, "Parse config error") || contains_str(&stderr, "level=fatal");
        if !has_error {
            return (true, String::new());
        }
        let message = if run.stdout.as_str().unicode_len() > 0 {
            run.stdout.clone()
        } else if stderr.len() > 0 {
            run.stderr.clone()
        } else {
            match run.exit_code {
                Some(code) => {
                    let mut text = String::from_str("验证进程异常退出，退出码: ");
                    let number = signed_decimal_string(code);
                    text.append(number.as_str());
                    text
                },
                None => String::from_str("验证进程被终止"),
            }
        };
        (false, message)
    }
}

fn signed_decimal_string(number: i32) -> (text: String)
    ensures
        text@ == signed_decimal_text(number as int),
{
    if number < 0 {
        let magnitude: u64 = (-(number as i64)) as u64;
        let mut text = String::from_str("-");
        let digits = decimal_string(magnitude);
        text.append(digits.as_str());
        text
    } else {
        decimal_string(number as u64)
    }
}

} // verus!
