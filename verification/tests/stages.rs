use trimmeh_core::classify::{
    contains_space, has_command_punctuation, is_likely_list, is_likely_source_code, is_list_item,
    read_signals, threshold, transform_if_command, Signals,
};
use trimmeh_core::commands::{
    command_line_count, contains_known_command_prefix, has_known_prefix, is_likely_command_line,
    starts_with_known_command,
};
use trimmeh_core::fingerprint::{fingerprint, hash_hex, hash_u128, hex_char};
use trimmeh_core::flatten::flatten;
use trimmeh_core::gutter::{strip_box_drawing_characters, strip_frames};
use trimmeh_core::patterns::check_patterns;
use trimmeh_core::pipeline::pick_reason;
use trimmeh_core::prompt::{
    contains_command_char, is_likely_prompt_command, strip_prompt_line, strip_prompt_prefixes,
};
use trimmeh_core::report::{
    can_diff, diff_report, effective_aggressiveness, exit_code, options_from, printed_text,
    EXIT_ENCODE_FAILURE, EXIT_OK, EXIT_UNCHANGED,
};
use trimmeh_core::lines::split_lines;
use trimmeh_core::url::repair_wrapped_url;
use trimmeh_core::{trim, Aggressiveness, Options, TrimReason};

fn chars(s: &str) -> Vec<char> {
    s.chars().collect()
}

fn lines(items: &[&str]) -> Vec<Vec<char>> {
    items.iter().map(|s| chars(s)).collect()
}

fn some(s: &str) -> Option<Vec<char>> {
    Some(chars(s))
}

fn quiet() -> Signals {
    Signals {
        line_continuation: false,
        joiner_at_eol: false,
        indented_pipeline: false,
        pipe_or_operator: false,
        prompt_marker: false,
        path_token: false,
        sudo_command: false,
        known_prefix: false,
        command_punctuation: false,
        source_code: false,
        list_like: false,
        command_lines: 0,
        non_blank_lines: 2,
    }
}

#[test]
fn the_pattern_table_compiles() {
    assert!(check_patterns());
}

#[test]
fn command_lines_start_with_a_command_word() {
    assert!(is_likely_command_line(&chars("ls -la")));
    assert!(is_likely_command_line(&chars("  sudo apt install foo  ")));
    assert!(is_likely_command_line(&chars("./configure")));
    assert!(is_likely_command_line(&chars("[[ -f x ]]")));
    assert!(is_likely_command_line(&chars("[[ -f x ]].")));
    assert!(!is_likely_command_line(&chars("Hello world.")));
    assert!(!is_likely_command_line(&chars("")));
    assert!(!is_likely_command_line(&chars("   ")));
    assert!(!is_likely_command_line(&chars("(cd /tmp)")));
    assert!(!is_likely_command_line(&chars("$ ls")));
    assert!(is_likely_command_line(&chars("- item one")));
}

#[test]
fn known_prefixes() {
    assert!(has_known_prefix(&chars("git")));
    assert!(has_known_prefix(&chars("gitk")));
    assert!(has_known_prefix(&chars("./run")));
    assert!(has_known_prefix(&chars("~/bin/x")));
    assert!(has_known_prefix(&chars("sh")));
    assert!(has_known_prefix(&chars("xcodebuild")));
    assert!(!has_known_prefix(&chars("s")));
    assert!(!has_known_prefix(&chars("")));
    assert!(!has_known_prefix(&chars("hello")));
    assert!(!has_known_prefix(&chars("GIT")));
}

#[test]
fn known_commands_are_found_in_any_case() {
    assert!(starts_with_known_command(&chars("GIT status")));
    assert!(starts_with_known_command(&chars("Docker run")));
    assert!(!starts_with_known_command(&chars("status git")));
    assert!(contains_known_command_prefix(&lines(&["hello", "  Docker run"])));
    assert!(!contains_known_command_prefix(&lines(&["hello", "world", ""])));
    assert!(!contains_known_command_prefix(&lines(&[])));
}

#[test]
fn counting_command_lines() {
    assert_eq!(command_line_count(&lines(&["ls -la", "", "Hello there.", "pwd"])), 2);
    assert_eq!(command_line_count(&lines(&[])), 0);
}

#[test]
fn command_characters() {
    assert!(contains_command_char(&chars("ls -la")));
    assert!(contains_command_char(&chars("a.b")));
    assert!(contains_command_char(&chars("a/b")));
    assert!(contains_command_char(&chars("~")));
    assert!(contains_command_char(&chars("echo $HOME")));
    assert!(contains_command_char(&chars("take 5")));
    assert!(!contains_command_char(&chars("hello world")));
    assert!(!contains_command_char(&chars("")));
}

#[test]
fn what_follows_a_prompt() {
    assert!(is_likely_prompt_command(&chars("sudo dnf install foo")));
    assert!(is_likely_prompt_command(&chars("echo hi")));
    assert!(is_likely_prompt_command(&chars("  pwd -P  ")));
    assert!(!is_likely_prompt_command(&chars("")));
    assert!(!is_likely_prompt_command(&chars("   ")));
    assert!(!is_likely_prompt_command(&chars("ls -la.")));
    assert!(!is_likely_prompt_command(&chars("what now?")));
    assert!(!is_likely_prompt_command(&chars("git push!")));
    assert!(!is_likely_prompt_command(&chars("hello there")));
    assert!(is_likely_prompt_command(&chars("$HOME/bin/tool -v")));
    assert!(is_likely_prompt_command(&chars("(cd /tmp && ls)")));
    assert!(is_likely_prompt_command(&chars("take 5")));
    assert!(is_likely_prompt_command(&chars("Docker")));
}

#[test]
fn stripping_one_prompt_line() {
    assert_eq!(strip_prompt_line(&chars("$ ls -la")), some("ls -la"));
    assert_eq!(strip_prompt_line(&chars("$ls -la")), some("ls -la"));
    assert_eq!(strip_prompt_line(&chars("  # apt install foo")), some("  apt install foo"));
    assert_eq!(strip_prompt_line(&chars("\t$   echo hi ")), some("\techo hi "));
    assert_eq!(strip_prompt_line(&chars("\u{a0}$ ls -la")), some("\u{a0}ls -la"));
    assert_eq!(strip_prompt_line(&chars("# This is a comment.")), None);
    assert_eq!(strip_prompt_line(&chars("$")), None);
    assert_eq!(strip_prompt_line(&chars("")), None);
    assert_eq!(strip_prompt_line(&chars("   ")), None);
    assert_eq!(strip_prompt_line(&chars("ls -la")), None);
    assert_eq!(strip_prompt_line(&chars("$ hello")), None);
    assert_eq!(strip_prompt_line(&chars("% ls -la")), None);
    assert_eq!(strip_prompt_line(&chars("$ $HOME/bin/tool -v")), some("$HOME/bin/tool -v"));
    assert_eq!(strip_prompt_line(&chars("# (cd /tmp && ls)")), some("(cd /tmp && ls)"));
}

#[test]
fn prompts_go_by_majority() {
    assert_eq!(strip_prompt_prefixes(&chars("$ ls -la")), some("ls -la"));
    assert_eq!(strip_prompt_prefixes(&chars("ls -la")), None);
    assert_eq!(strip_prompt_prefixes(&chars("$ ls -la\n\n")), some("ls -la\n\n"));
    assert_eq!(strip_prompt_prefixes(&chars("")), None);
    assert_eq!(strip_prompt_prefixes(&chars("\n \n")), None);
    assert_eq!(strip_prompt_prefixes(&chars("$ ls -la\nplain")), None);
    assert_eq!(strip_prompt_prefixes(&chars("$ ls -la\n# pwd -P")), some("ls -la\npwd -P"));
    assert_eq!(strip_prompt_prefixes(&chars("$ ls -la\nfoo\nbar")), None);
    assert_eq!(
        strip_prompt_prefixes(&chars("$ ls -la\n$ pwd -P\nbar")),
        some("ls -la\npwd -P\nbar")
    );
    assert_eq!(strip_prompt_prefixes(&chars("$ ls -la\n\n\nplain")), None);
    assert_eq!(strip_prompt_prefixes(&chars("$ ls -la\n$ pwd -P\nfoo\nbar")), None);
    assert_eq!(
        strip_prompt_prefixes(&chars("$ ls -la\n$ pwd -P\n\n# cat a.txt\nbar")),
        some("ls -la\npwd -P\n\ncat a.txt\nbar")
    );
    assert_eq!(
        strip_prompt_prefixes(&chars("$ ls -la\n$ pwd -P\nfoo\nbar\n$ cd /tmp")),
        some("ls -la\npwd -P\nfoo\nbar\ncd /tmp")
    );
}

#[test]
fn gutters_go_by_majority() {
    assert_eq!(strip_box_drawing_characters(&chars("no gutters here")), None);
    assert_eq!(strip_box_drawing_characters(&chars("")), None);
    assert_eq!(
        strip_box_drawing_characters(&chars("│ sudo dnf upgrade && \n│ reboot")),
        some("sudo dnf upgrade && \nreboot")
    );
    assert_eq!(strip_box_drawing_characters(&chars("│ ls -la │")), some("ls -la"));
    assert_eq!(
        strip_box_drawing_characters(&chars("foo │ bar │\nbaz │ qux │")),
        some("foo bar\nbaz qux")
    );
    assert_eq!(
        strip_box_drawing_characters(&chars("│ echo hi │\n│ ls -l │")),
        some("echo hi\nls -l")
    );
    assert_eq!(
        strip_box_drawing_characters(&chars("│ echo hi │\n│ ls -l │\n")),
        some("echo hi\nls -l")
    );
    assert_eq!(strip_box_drawing_characters(&chars("a │ │ b")), some("a b"));
    assert_eq!(strip_box_drawing_characters(&chars("cat x | ┃ grep y")), some("cat x | grep y"));
    assert_eq!(strip_box_drawing_characters(&chars("/usr/ ┆ local")), some("/usr/local"));
}

#[test]
fn a_gutter_on_a_minority_of_lines_stays() {
    assert_eq!(strip_box_drawing_characters(&chars("│ echo hi\nls -l\ncd /tmp")), None);
    assert_eq!(strip_box_drawing_characters(&chars("echo hi\n│ ls -l\ncd /tmp")), None);
    assert_eq!(strip_box_drawing_characters(&chars("echo hi\nls -l │\ncd /tmp")), None);
    assert_eq!(strip_box_drawing_characters(&chars("│ echo hi\nls -l")), None);
    assert_eq!(
        strip_box_drawing_characters(&chars("│ echo hi\n│ ls -l\ncd /tmp")),
        some("echo hi\nls -l\ncd /tmp")
    );
    assert_eq!(
        strip_box_drawing_characters(&chars("echo │ hi\nls -l\ncd /tmp")),
        some("echo hi\nls -l\ncd /tmp")
    );
}

#[test]
fn frames_stay_without_a_majority() {
    assert_eq!(strip_frames(&chars("│ a\nb\nc")), chars("│ a\nb\nc"));
    assert_eq!(strip_frames(&chars("│ a\n│ b\nc")), chars("a\nb\nc"));
    assert_eq!(strip_frames(&chars("plain")), chars("plain"));
    assert_eq!(strip_frames(&chars("")), chars(""));
}

#[test]
fn wrapped_addresses() {
    assert_eq!(
        repair_wrapped_url(&chars("https://example.com/very\n/long/path")),
        some("https://example.com/very/long/path")
    );
    assert_eq!(repair_wrapped_url(&chars(" http://x.com/a b \n")), some("http://x.com/ab"));
    assert_eq!(repair_wrapped_url(&chars("https://example.com/a")), None);
    assert_eq!(repair_wrapped_url(&chars("  https://example.com/a  ")), None);
    assert_eq!(repair_wrapped_url(&chars("see https://example.com/a b")), None);
    assert_eq!(repair_wrapped_url(&chars("https://a.com http://b.com")), None);
    assert_eq!(repair_wrapped_url(&chars("https://a.com/?u=HTTP://b.com x")), None);
    assert_eq!(repair_wrapped_url(&chars("HTTPS://Example.com/a b")), None);
    assert_eq!(repair_wrapped_url(&chars("https://exa mple.com/<x>")), None);
    assert_eq!(repair_wrapped_url(&chars("ftp://example.com/a b")), None);
    assert_eq!(repair_wrapped_url(&chars("")), None);
}

#[test]
fn thresholds() {
    assert_eq!(threshold(Aggressiveness::Low), 3);
    assert_eq!(threshold(Aggressiveness::Normal), 2);
    assert_eq!(threshold(Aggressiveness::High), 1);
}

#[test]
fn scores_add_one_point_per_signal() {
    assert_eq!(quiet().total_score(), 0);
    assert_eq!(Signals { command_lines: 2, ..quiet() }.total_score(), 1);
    assert_eq!(Signals { line_continuation: true, ..quiet() }.total_score(), 1);
    assert_eq!(Signals { pipe_or_operator: true, ..quiet() }.total_score(), 1);
    assert_eq!(Signals { prompt_marker: true, ..quiet() }.total_score(), 1);
    assert_eq!(Signals { sudo_command: true, ..quiet() }.total_score(), 1);
    assert_eq!(Signals { path_token: true, ..quiet() }.total_score(), 1);
    assert_eq!(Signals { joiner_at_eol: true, indented_pipeline: true, ..quiet() }.total_score(), 0);
    assert_eq!(
        Signals { known_prefix: true, command_punctuation: true, ..quiet() }.total_score(),
        0
    );
    let all = Signals {
        line_continuation: true,
        pipe_or_operator: true,
        prompt_marker: true,
        path_token: true,
        sudo_command: true,
        command_lines: 2,
        ..quiet()
    };
    assert_eq!(all.total_score(), 6);
}

#[test]
fn the_score_must_reach_the_threshold() {
    let two = Signals { line_continuation: true, path_token: true, ..quiet() };
    assert!(!two.is_command(Aggressiveness::Low));
    assert!(two.is_command(Aggressiveness::Normal));
    assert!(two.is_command(Aggressiveness::High));
    let three = Signals { pipe_or_operator: true, ..two };
    assert!(three.is_command(Aggressiveness::Low));
    let one = Signals { path_token: true, ..quiet() };
    assert!(!one.is_command(Aggressiveness::Normal));
    assert!(one.is_command(Aggressiveness::High));
    let none = Signals { command_punctuation: true, ..quiet() };
    assert!(!none.is_command(Aggressiveness::High));
}

#[test]
fn rejections_hold_unless_forced() {
    let strong = Signals { line_continuation: true, path_token: true, sudo_command: true, ..quiet() };
    assert!(strong.is_command(Aggressiveness::Low));

    let list = Signals { list_like: true, ..strong };
    assert!(!list.is_command(Aggressiveness::Low));
    assert!(!list.is_command(Aggressiveness::Normal));
    assert!(list.is_command(Aggressiveness::High));

    let segmented = Signals {
        known_prefix: true,
        sudo_command: true,
        path_token: true,
        command_lines: 3,
        non_blank_lines: 3,
        ..quiet()
    };
    assert!(!segmented.is_command(Aggressiveness::Normal));
    assert!(segmented.is_command(Aggressiveness::High));
    assert!(Signals { joiner_at_eol: true, ..segmented }.is_command(Aggressiveness::Normal));
    assert!(Signals { indented_pipeline: true, ..segmented }.is_command(Aggressiveness::Normal));
    assert!(Signals { non_blank_lines: 2, command_lines: 2, ..segmented }
        .is_command(Aggressiveness::Normal));

    let weak = Signals { sudo_command: true, command_lines: 2, ..quiet() };
    assert!(!weak.is_command(Aggressiveness::Normal));
    assert!(weak.is_command(Aggressiveness::High));
    assert!(Signals { known_prefix: true, ..weak }.is_command(Aggressiveness::Normal));
    assert!(Signals { command_punctuation: true, ..weak }.is_command(Aggressiveness::Normal));

    let source = Signals { source_code: true, known_prefix: true, ..weak };
    assert!(!source.is_command(Aggressiveness::Normal));
    assert!(source.is_command(Aggressiveness::High));
    assert!(Signals { pipe_or_operator: true, ..source }.is_command(Aggressiveness::Normal));
}

#[test]
fn list_items() {
    assert!(is_list_item(&chars("- item one")));
    assert!(is_list_item(&chars("  * item")));
    assert!(is_list_item(&chars("• item")));
    assert!(is_list_item(&chars("1. first")));
    assert!(is_list_item(&chars("12) twelfth")));
    assert!(is_list_item(&chars("alpha")));
    assert!(is_list_item(&chars("beta1")));
    assert!(!is_list_item(&chars("abc")));
    assert!(!is_list_item(&chars("two words")));
    assert!(!is_list_item(&chars("-flag")));
    assert!(!is_list_item(&chars("a.bcd")));
    assert!(!is_list_item(&chars("")));
    assert!(contains_space(&chars("a b")));
    assert!(contains_space(&chars("a\u{a0}b")));
    assert!(!contains_space(&chars("ab")));
}

#[test]
fn lists_go_by_majority() {
    assert!(is_likely_list(&lines(&["- a", "- b", "c d e"])));
    assert!(is_likely_list(&lines(&["1. one", "2) two", "", "x y z"])));
    assert!(is_likely_list(&lines(&["alpha", "beta1", "gamma"])));
    assert!(!is_likely_list(&lines(&["- a", "b c", "c d e"])));
    assert!(!is_likely_list(&lines(&["- a", "b c"])));
    assert!(!is_likely_list(&lines(&["", " "])));
    assert!(!is_likely_list(&lines(&[])));
}

#[test]
fn source_code_and_punctuation() {
    assert!(is_likely_source_code(&chars("fn main() {\n}")));
    assert!(is_likely_source_code(&chars("BEGIN\nif x")));
    assert!(!is_likely_source_code(&chars("echo {a,b}")));
    assert!(!is_likely_source_code(&chars("import os")));
    assert!(has_command_punctuation(&chars("ls -la")));
    assert!(has_command_punctuation(&chars("a=b")));
    assert!(!has_command_punctuation(&chars("hello world")));
}

#[test]
fn signals_of_a_wrapped_command() {
    let text = chars("$ sudo apt install \\\n  foo/bar | tee log");
    let signals = read_signals(&text, &split_lines(&text));
    assert!(signals.line_continuation);
    assert!(signals.joiner_at_eol);
    assert!(!signals.indented_pipeline);
    assert!(signals.pipe_or_operator);
    assert!(signals.prompt_marker);
    assert!(signals.path_token);
    assert!(signals.sudo_command);
    assert!(!signals.known_prefix);
    assert!(signals.command_punctuation);
    assert!(!signals.source_code);
    assert!(!signals.list_like);
    assert_eq!(signals.command_lines, 1);
    assert_eq!(signals.non_blank_lines, 2);
    assert_eq!(signals.total_score(), 5);
}

#[test]
fn signals_of_prose() {
    let text = chars("Hello there\nmy friend");
    let signals = read_signals(&text, &split_lines(&text));
    assert!(!signals.line_continuation);
    assert!(!signals.joiner_at_eol);
    assert!(!signals.pipe_or_operator);
    assert!(!signals.prompt_marker);
    assert!(!signals.path_token);
    assert!(!signals.known_prefix);
    assert!(!signals.command_punctuation);
    assert!(!signals.is_command(Aggressiveness::Normal));
}

#[test]
fn flattening_rejoins_what_was_broken() {
    assert_eq!(flatten(&chars("foo-\nbar"), false), (chars("foo-bar"), false));
    assert_eq!(flatten(&chars("FOO\nBAR"), false), (chars("FOOBAR"), false));
    assert_eq!(flatten(&chars("/usr/\n  local/bin"), false), (chars("/usr/local/bin"), false));
    assert_eq!(flatten(&chars("a \\\n b"), false), (chars("a b"), true));
    assert_eq!(flatten(&chars("ls\n-la\n\n\n/tmp"), false), (chars("ls -la /tmp"), false));
    assert_eq!(flatten(&chars("  ls \t -la  "), false), (chars("ls -la"), false));
    assert_eq!(flatten(&chars(""), false), (chars(""), false));
}

#[test]
fn flattening_keeps_blank_lines_on_request() {
    assert_eq!(
        flatten(&chars("echo first\necho second\n\necho third"), true),
        (chars("echo first echo second\n\necho third"), false)
    );
    assert_eq!(
        flatten(&chars("echo first\necho second\n\necho third"), false),
        (chars("echo first echo second echo third"), false)
    );
    assert_eq!(flatten(&chars("a\n \n\nb"), true), (chars("a\n\nb"), false));
}

#[test]
fn only_wrapped_commands_are_flattened() {
    let none: Option<(Vec<char>, bool)> = None;
    assert_eq!(transform_if_command(&chars("echo hi"), Aggressiveness::High, false), none);
    assert_eq!(
        transform_if_command(&chars("ls -la \\\n  /tmp"), Aggressiveness::Normal, false),
        Some((chars("ls -la /tmp"), true))
    );
    assert_eq!(
        transform_if_command(&chars("Hello there\nmy friend"), Aggressiveness::Normal, false),
        none
    );
    assert_eq!(
        transform_if_command(&chars("- one\n- two\n- three"), Aggressiveness::Normal, false),
        none
    );
    assert_eq!(
        transform_if_command(&chars("echo a\necho b\necho c"), Aggressiveness::Normal, false),
        none
    );
    assert_eq!(
        transform_if_command(&chars("echo a\necho b\necho c"), Aggressiveness::High, false),
        Some((chars("echo a echo b echo c"), false))
    );
}

#[test]
fn the_classifier_looks_at_two_to_ten_lines() {
    let six = "ls -la |\ngrep a |\ngrep b |\ngrep c |\ngrep d |\nwc -l";
    assert_eq!(transform_if_command(&chars(six), Aggressiveness::Normal, false), None);
    assert_eq!(
        transform_if_command(&chars(six), Aggressiveness::High, false),
        Some((chars("ls -la | grep a | grep b | grep c | grep d | wc -l"), false))
    );
    let five = "ls -la |\ngrep a |\ngrep b |\ngrep c |\nwc -l";
    assert_eq!(
        transform_if_command(&chars(five), Aggressiveness::Normal, false),
        Some((chars("ls -la | grep a | grep b | grep c | wc -l"), false))
    );
    let ten = "a |\nb |\nc |\nd |\ne |\nf |\ng |\nh |\ni |\nj";
    assert_eq!(
        transform_if_command(&chars(ten), Aggressiveness::High, false),
        Some((chars("a | b | c | d | e | f | g | h | i | j"), false))
    );
    let eleven = "a |\nb |\nc |\nd |\ne |\nf |\ng |\nh |\ni |\nj |\nk";
    assert_eq!(transform_if_command(&chars(eleven), Aggressiveness::High, false), None);
    let res = trim(eleven, Aggressiveness::High, Options { max_lines: 20, ..Default::default() });
    assert!(!res.changed);
    assert_eq!(res.reason, None);
}

#[test]
fn reasons_come_in_a_fixed_order() {
    assert_eq!(pick_reason(false, true, true, true), None);
    assert_eq!(pick_reason(false, false, false, false), None);
    assert_eq!(pick_reason(true, true, true, true), Some(TrimReason::BackslashMerged));
    assert_eq!(pick_reason(true, true, false, false), Some(TrimReason::BackslashMerged));
    assert_eq!(pick_reason(true, false, true, true), Some(TrimReason::BoxCharsRemoved));
    assert_eq!(pick_reason(true, false, true, false), Some(TrimReason::BoxCharsRemoved));
    assert_eq!(pick_reason(true, false, false, true), Some(TrimReason::PromptStripped));
    assert_eq!(pick_reason(true, false, false, false), Some(TrimReason::Flattened));
}

#[test]
fn fingerprints_read_the_first_sixteen_bytes() {
    let mut digest = [0u8; 32];
    assert_eq!(hash_u128(&digest), 0);
    digest[15] = 1;
    assert_eq!(hash_u128(&digest), 1);
    digest[16] = 0xff;
    digest[31] = 0xff;
    assert_eq!(hash_u128(&digest), 1);
    digest[0] = 0x80;
    digest[14] = 2;
    assert_eq!(hash_u128(&digest), (0x80_u128 << 120) + 0x201);
    assert_eq!(hash_u128(&[0xff; 32]), u128::MAX);
    assert_eq!(fingerprint(""), 0xaf1349b9f5f9a1a6a0404dea36dcc949_u128);
    assert_ne!(fingerprint("a"), fingerprint("b"));
    assert_eq!(fingerprint("echo hi"), fingerprint("echo hi"));
}

#[test]
fn fingerprints_print_as_thirty_two_hex_digits() {
    assert_eq!(hash_hex(0), "00000000000000000000000000000000");
    assert_eq!(hash_hex(0xabc), "00000000000000000000000000000abc");
    assert_eq!(hash_hex(u128::MAX), "ffffffffffffffffffffffffffffffff");
    assert_eq!(hash_hex(fingerprint("")), "af1349b9f5f9a1a6a0404dea36dcc949");
    assert_eq!(hash_hex(0x0123456789abcdef_0fedcba987654321), "0123456789abcdef0fedcba987654321");
    assert_eq!(hex_char(0), '0');
    assert_eq!(hex_char(9), '9');
    assert_eq!(hex_char(10), 'a');
    assert_eq!(hex_char(15), 'f');
}

#[test]
fn forcing_pins_the_aggressiveness() {
    assert_eq!(effective_aggressiveness(true, Aggressiveness::Low), Aggressiveness::High);
    assert_eq!(effective_aggressiveness(true, Aggressiveness::High), Aggressiveness::High);
    assert_eq!(effective_aggressiveness(false, Aggressiveness::Low), Aggressiveness::Low);
    assert_eq!(effective_aggressiveness(false, Aggressiveness::Normal), Aggressiveness::Normal);
}

#[test]
fn options_from_flags() {
    assert_eq!(
        options_from(true, false, false, false, 7),
        Options { keep_blank_lines: true, strip_box_chars: false, trim_prompts: false, max_lines: 7 }
    );
    assert_eq!(
        options_from(false, false, true, true, 10),
        Options { keep_blank_lines: false, strip_box_chars: true, trim_prompts: true, max_lines: 10 }
    );
    assert_eq!(options_from(false, true, false, true, 10), Options::default());
}

#[test]
fn exit_codes() {
    assert_eq!(EXIT_OK, 0);
    assert_eq!(EXIT_UNCHANGED, 2);
    assert_eq!(EXIT_ENCODE_FAILURE, 3);
    assert_eq!(exit_code(true, false), 0);
    assert_eq!(exit_code(true, true), 0);
    assert_eq!(exit_code(false, true), 0);
    assert_eq!(exit_code(false, false), 2);
}

#[test]
fn printed_text_ends_in_a_line_feed() {
    assert_eq!(printed_text("echo hi"), "echo hi\n");
    assert_eq!(printed_text("echo hi\n"), "echo hi\n");
    assert_eq!(printed_text(""), "\n");
    assert_eq!(printed_text("a\n\n"), "a\n\n");
}

#[test]
fn a_diff_is_shown_for_a_change_only() {
    let input = "$ sudo dnf install foo\n";
    let unchanged = trim("echo hi", Aggressiveness::Normal, Options::default());
    assert_eq!(diff_report("echo hi", &unchanged), None);
    let changed = trim(input, Aggressiveness::Normal, Options::default());
    assert!(changed.changed);
    let diff = diff_report(input, &changed).expect("a change has a diff");
    assert!(diff.starts_with("--- before\n+++ after\n@@ "));
    assert!(diff.contains("\n-$ sudo dnf install foo\n"));
    assert!(diff.contains("\n+sudo dnf install foo"));
}

#[test]
fn a_higher_aggressiveness_accepts_what_a_lower_one_does() {
    let texts = [
        "ls -la \\\n  /tmp",
        "echo a\necho b\necho c",
        "Hello there\nmy friend",
        "- one\n- two\n- three",
        "cat a.txt |\n  grep foo |\n  wc -l",
        "fn main() {\n    let x = 1;\n}",
        "sudo apt update &&\nsudo apt upgrade",
    ];
    for text in texts {
        let low = transform_if_command(&chars(text), Aggressiveness::Low, false).is_some();
        let normal = transform_if_command(&chars(text), Aggressiveness::Normal, false).is_some();
        let high = transform_if_command(&chars(text), Aggressiveness::High, false).is_some();
        assert!(!low || normal, "{:?}", text);
        assert!(!normal || high, "{:?}", text);
    }
    assert!(transform_if_command(&chars("echo a\necho b\necho c"), Aggressiveness::High, false)
        .is_some());
    assert!(transform_if_command(&chars("echo a\necho b\necho c"), Aggressiveness::Low, false)
        .is_none());
}

#[test]
fn texts_of_ordinary_length_can_be_diffed() {
    assert!(can_diff("", ""));
    assert!(can_diff("$ sudo dnf install foo\n", "sudo dnf install foo"));
    let long = "x\n".repeat(100_000);
    assert!(can_diff(&long, &long));
}
