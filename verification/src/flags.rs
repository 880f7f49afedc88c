//! Which options a command line shows.
//!
//! The pieces of a command are held apart by spaces, slashes and single
//! quotes. A word without these characters can therefore stand in a command
//! only inside one piece: in the fixed text of an option, or in a path or a
//! prefix that the caller gave.

use vstd::prelude::*;
use vstd::string::*;
use crate::command::{
    activate_command, bare_activate_command, bare_wait_command, flag, log_dir_segment, program,
    wait_command, with_prefix, ActivationOptions, WaitOptions,
};
use crate::text::{
    decimal, digits, includes, join, lemma_concat_is_associative, lemma_decimal_is_digits,
    lemma_join_push,
    lemma_missing_character, lemma_part_stands_at_its_place, lemma_parts_stand_in_order,
    lemma_word_stays_in_one_part, occurs_at, place, stands_before,
};

verus! {

/// Whether `word` holds none of the characters that hold the pieces of a
/// command apart.
pub open spec fn is_unbroken(word: Seq<char>) -> bool {
    !word.contains(' ') && !word.contains('/') && !word.contains('\'')
}

/// Whether `word` stands in an optional text.
pub open spec fn option_includes(text: Option<Seq<char>>, word: Seq<char>) -> bool {
    text matches Some(text) && includes(text, word)
}

impl ActivationOptions {
    /// Whether `word` stands in the prefix or in one of the paths.
    pub open spec fn carries(self, word: Seq<char>) -> bool {
        ||| option_includes(self.sudo, word)
        ||| includes(self.closure, word)
        ||| option_includes(self.log_dir, word)
        ||| includes(self.temp_path, word)
        ||| includes(self.profile_path, word)
    }

    /// Whether `word` stands in one of the fixed texts of the activation
    /// command, or in the numeral of the timeout.
    pub open spec fn frame_includes(self, word: Seq<char>) -> bool {
        ||| self.sudo is Some && includes(" "@, word)
        ||| program_frame_includes(self.debug_logs, self.log_dir is Some, word)
        ||| includes(" --temp-path '"@, word)
        ||| includes("' activate '"@, word)
        ||| includes("' '"@, word)
        ||| includes("'"@, word)
        ||| includes(" --confirm-timeout "@, word)
        ||| includes(decimal(self.confirm_timeout as nat), word)
        ||| self.magic_rollback && includes(" --magic-rollback"@, word)
        ||| self.auto_rollback && includes(" --auto-rollback"@, word)
    }
}

impl WaitOptions {
    /// Whether `word` stands in the prefix or in one of the paths.
    pub open spec fn carries(self, word: Seq<char>) -> bool {
        ||| option_includes(self.sudo, word)
        ||| includes(self.closure, word)
        ||| option_includes(self.log_dir, word)
        ||| includes(self.temp_path, word)
    }

    /// Whether `word` stands in one of the fixed texts of the wait command.
    pub open spec fn frame_includes(self, word: Seq<char>) -> bool {
        ||| self.sudo is Some && includes(" "@, word)
        ||| program_frame_includes(self.debug_logs, self.log_dir is Some, word)
        ||| includes(" --temp-path '"@, word)
        ||| includes("' wait '"@, word)
        ||| includes("'"@, word)
    }
}

/// Whether `word` stands in one of the fixed texts with which a call of the
/// remote activation binary starts.
pub open spec fn program_frame_includes(debug_logs: bool, has_log_dir: bool, word: Seq<char>) -> bool {
    ||| includes("/activate-rs"@, word)
    ||| debug_logs && includes(" --debug-logs"@, word)
    ||| has_log_dir && includes(" --log-dir "@, word)
}

/// An unbroken word stands in the start of a call only inside one of its
/// pieces.
proof fn lemma_program_pieces(
    closure: Seq<char>,
    debug_logs: bool,
    log_dir: Option<Seq<char>>,
    word: Seq<char>,
)
    requires
        is_unbroken(word),
    ensures
        includes(program(closure, debug_logs, log_dir), word) <==> includes(closure, word)
            || option_includes(log_dir, word) || program_frame_includes(
            debug_logs,
            log_dir is Some,
            word,
        ),
{
    reveal_strlit("/activate-rs");
    reveal_strlit(" --debug-logs");
    reveal_strlit(" --log-dir ");
    let binary = closure + "/activate-rs"@;
    lemma_word_stays_in_one_part(closure, "/activate-rs"@, word);
    let logging = binary + flag(debug_logs, " --debug-logs"@);
    if debug_logs {
        lemma_word_stays_in_one_part(binary, " --debug-logs"@, word);
    } else {
        assert(logging =~= binary);
    }
    match log_dir {
        Some(dir) => {
            lemma_word_stays_in_one_part(" --log-dir "@, dir, word);
            lemma_word_stays_in_one_part(logging, " --log-dir "@ + dir, word);
        },
        None => {
            assert(logging + log_dir_segment(log_dir) =~= logging);
        },
    }
}

/// An unbroken word stands in a command with its prefix only inside the
/// prefix or inside the command.
proof fn lemma_prefix_pieces(sudo: Option<Seq<char>>, command: Seq<char>, word: Seq<char>)
    requires
        is_unbroken(word),
    ensures
        includes(with_prefix(sudo, command), word) <==> option_includes(sudo, word) || (sudo is Some
            && includes(" "@, word)) || includes(command, word),
{
    reveal_strlit(" ");
    match sudo {
        Some(prefix) => {
            lemma_word_stays_in_one_part(prefix, " "@, word);
            lemma_word_stays_in_one_part(prefix + " "@, command, word);
        },
        None => {},
    }
}

/// An unbroken word stands in the activation command only inside one of its
/// pieces: in what the options carry, or in a fixed text.
pub proof fn lemma_activate_command_pieces(o: ActivationOptions, word: Seq<char>)
    requires
        is_unbroken(word),
    ensures
        includes(activate_command(o), word) <==> o.carries(word) || o.frame_includes(word),
{
    reveal_strlit(" --temp-path '");
    reveal_strlit("' activate '");
    reveal_strlit("' '");
    reveal_strlit("'");
    reveal_strlit(" --confirm-timeout ");
    reveal_strlit(" --magic-rollback");
    reveal_strlit(" --auto-rollback");
    let timeout = decimal(o.confirm_timeout as nat);
    let t0 = program(o.closure, o.debug_logs, o.log_dir);
    lemma_program_pieces(o.closure, o.debug_logs, o.log_dir, word);
    let t1 = t0 + " --temp-path '"@;
    lemma_word_stays_in_one_part(t0, " --temp-path '"@, word);
    let t2 = t1 + o.temp_path;
    lemma_word_stays_in_one_part(t1, o.temp_path, word);
    let t3 = t2 + "' activate '"@;
    lemma_word_stays_in_one_part(t2, "' activate '"@, word);
    let t4 = t3 + o.closure;
    lemma_word_stays_in_one_part(t3, o.closure, word);
    let t5 = t4 + "' '"@;
    lemma_word_stays_in_one_part(t4, "' '"@, word);
    let t6 = t5 + o.profile_path;
    lemma_word_stays_in_one_part(t5, o.profile_path, word);
    let t7 = t6 + "'"@;
    lemma_word_stays_in_one_part(t6, "'"@, word);
    let t8 = t7 + " --confirm-timeout "@;
    lemma_word_stays_in_one_part(t7, " --confirm-timeout "@, word);
    let t9 = t8 + timeout;
    lemma_word_stays_in_one_part(t8, timeout, word);
    let t10 = t9 + flag(o.magic_rollback, " --magic-rollback"@);
    if o.magic_rollback {
        lemma_word_stays_in_one_part(t9, " --magic-rollback"@, word);
    } else {
        assert(t10 =~= t9);
    }
    let t11 = t10 + flag(o.auto_rollback, " --auto-rollback"@);
    if o.auto_rollback {
        lemma_word_stays_in_one_part(t10, " --auto-rollback"@, word);
    } else {
        assert(t11 =~= t10);
    }
    assert(t11 == bare_activate_command(o));
    lemma_prefix_pieces(o.sudo, t11, word);
}

/// An unbroken word stands in the wait command only inside one of its
/// pieces: in what the options carry, or in a fixed text.
pub proof fn lemma_wait_command_pieces(o: WaitOptions, word: Seq<char>)
    requires
        is_unbroken(word),
    ensures
        includes(wait_command(o), word) <==> o.carries(word) || o.frame_includes(word),
{
    reveal_strlit(" --temp-path '");
    reveal_strlit("' wait '");
    reveal_strlit("'");
    let t0 = program(o.closure, o.debug_logs, o.log_dir);
    lemma_program_pieces(o.closure, o.debug_logs, o.log_dir, word);
    let t1 = t0 + " --temp-path '"@;
    lemma_word_stays_in_one_part(t0, " --temp-path '"@, word);
    let t2 = t1 + o.temp_path;
    lemma_word_stays_in_one_part(t1, o.temp_path, word);
    let t3 = t2 + "' wait '"@;
    lemma_word_stays_in_one_part(t2, "' wait '"@, word);
    let t4 = t3 + o.closure;
    lemma_word_stays_in_one_part(t3, o.closure, word);
    let t5 = t4 + "'"@;
    lemma_word_stays_in_one_part(t4, "'"@, word);
    assert(t5 == bare_wait_command(o));
    lemma_prefix_pieces(o.sudo, t5, word);
}

/// A word with a hyphen does not stand in a decimal numeral.
proof fn lemma_numeral_excludes(n: nat, word: Seq<char>)
    requires
        word.contains('-'),
    ensures
        !includes(decimal(n), word),
{
    lemma_decimal_is_digits(n);
    assert(!digits().contains('-'));
    lemma_missing_character(decimal(n), word, '-');
}

/// The activation command shows `--magic-rollback` exactly if magic rollback
/// is asked for, or if the prefix or a path carries these very characters.
pub proof fn lemma_activate_shows_magic_rollback(o: ActivationOptions)
    ensures
        includes(activate_command(o), "--magic-rollback"@) <==> o.magic_rollback || o.carries(
            "--magic-rollback"@,
        ),
{
    let word = "--magic-rollback"@;
    reveal_strlit("--magic-rollback");
    reveal_strlit(" ");
    reveal_strlit("/activate-rs");
    reveal_strlit(" --debug-logs");
    reveal_strlit(" --log-dir ");
    reveal_strlit(" --temp-path '");
    reveal_strlit("' activate '");
    reveal_strlit("' '");
    reveal_strlit("'");
    reveal_strlit(" --confirm-timeout ");
    reveal_strlit(" --magic-rollback");
    reveal_strlit(" --auto-rollback");
    assert(word[0] == '-' && word[2] == 'm' && word[15] == 'k');
    lemma_missing_character(" "@, word, 'm');
    lemma_missing_character("/activate-rs"@, word, 'm');
    lemma_missing_character(" --debug-logs"@, word, 'm');
    lemma_missing_character(" --log-dir "@, word, 'm');
    lemma_missing_character(" --temp-path '"@, word, 'k');
    lemma_missing_character("' activate '"@, word, 'm');
    lemma_missing_character("' '"@, word, 'm');
    lemma_missing_character("'"@, word, 'm');
    lemma_missing_character(" --confirm-timeout "@, word, 'k');
    lemma_missing_character(" --auto-rollback"@, word, 'm');
    lemma_numeral_excludes(o.confirm_timeout as nat, word);
    assert(" --magic-rollback"@.subrange(1, 17) =~= word);
    assert(occurs_at(" --magic-rollback"@, word, 1));
    lemma_activate_command_pieces(o, word);
}

/// The activation command shows `--auto-rollback` exactly if auto rollback
/// is asked for, or if the prefix or a path carries these very characters.
pub proof fn lemma_activate_shows_auto_rollback(o: ActivationOptions)
    ensures
        includes(activate_command(o), "--auto-rollback"@) <==> o.auto_rollback || o.carries(
            "--auto-rollback"@,
        ),
{
    let word = "--auto-rollback"@;
    reveal_strlit("--auto-rollback");
    reveal_strlit(" ");
    reveal_strlit("/activate-rs");
    reveal_strlit(" --debug-logs");
    reveal_strlit(" --log-dir ");
    reveal_strlit(" --temp-path '");
    reveal_strlit("' activate '");
    reveal_strlit("' '");
    reveal_strlit("'");
    reveal_strlit(" --confirm-timeout ");
    reveal_strlit(" --magic-rollback");
    reveal_strlit(" --auto-rollback");
    assert(word[0] == '-' && word[3] == 'u' && word[14] == 'k');
    lemma_missing_character(" "@, word, 'k');
    lemma_missing_character("/activate-rs"@, word, 'k');
    lemma_missing_character(" --debug-logs"@, word, 'k');
    lemma_missing_character(" --log-dir "@, word, 'k');
    lemma_missing_character(" --temp-path '"@, word, 'k');
    lemma_missing_character("' activate '"@, word, 'k');
    lemma_missing_character("' '"@, word, 'k');
    lemma_missing_character("'"@, word, 'k');
    lemma_missing_character(" --confirm-timeout "@, word, 'k');
    lemma_missing_character(" --magic-rollback"@, word, 'u');
    lemma_numeral_excludes(o.confirm_timeout as nat, word);
    assert(" --auto-rollback"@.subrange(1, 16) =~= word);
    assert(occurs_at(" --auto-rollback"@, word, 1));
    lemma_activate_command_pieces(o, word);
}

/// The activation command shows `--debug-logs` exactly if detailed logging
/// is asked for, or if the prefix or a path carries these very characters.
pub proof fn lemma_activate_shows_debug_logs(o: ActivationOptions)
    ensures
        includes(activate_command(o), "--debug-logs"@) <==> o.debug_logs || o.carries(
            "--debug-logs"@,
        ),
{
    let word = "--debug-logs"@;
    reveal_strlit("--debug-logs");
    reveal_strlit(" ");
    reveal_strlit("/activate-rs");
    reveal_strlit(" --debug-logs");
    reveal_strlit(" --log-dir ");
    reveal_strlit(" --temp-path '");
    reveal_strlit("' activate '");
    reveal_strlit("' '");
    reveal_strlit("'");
    reveal_strlit(" --confirm-timeout ");
    reveal_strlit(" --magic-rollback");
    reveal_strlit(" --auto-rollback");
    assert(word[0] == '-' && word[2] == 'd' && word[4] == 'b' && word[6] == 'g');
    lemma_missing_character(" "@, word, 'g');
    lemma_missing_character("/activate-rs"@, word, 'g');
    lemma_missing_character(" --log-dir "@, word, 'b');
    lemma_missing_character(" --temp-path '"@, word, 'g');
    lemma_missing_character("' activate '"@, word, 'g');
    lemma_missing_character("' '"@, word, 'g');
    lemma_missing_character("'"@, word, 'g');
    lemma_missing_character(" --confirm-timeout "@, word, 'g');
    lemma_missing_character(" --magic-rollback"@, word, 'd');
    lemma_missing_character(" --auto-rollback"@, word, 'g');
    lemma_numeral_excludes(o.confirm_timeout as nat, word);
    assert(" --debug-logs"@.subrange(1, 13) =~= word);
    assert(occurs_at(" --debug-logs"@, word, 1));
    lemma_activate_command_pieces(o, word);
}

/// The activation command shows `--log-dir` exactly if there is a log
/// directory, or if the prefix or a path carries these very characters.
pub proof fn lemma_activate_shows_log_dir(o: ActivationOptions)
    ensures
        includes(activate_command(o), "--log-dir"@) <==> o.log_dir is Some || o.carries(
            "--log-dir"@,
        ),
{
    let word = "--log-dir"@;
    reveal_strlit("--log-dir");
    reveal_strlit(" ");
    reveal_strlit("/activate-rs");
    reveal_strlit(" --debug-logs");
    reveal_strlit(" --log-dir ");
    reveal_strlit(" --temp-path '");
    reveal_strlit("' activate '");
    reveal_strlit("' '");
    reveal_strlit("'");
    reveal_strlit(" --confirm-timeout ");
    reveal_strlit(" --magic-rollback");
    reveal_strlit(" --auto-rollback");
    assert(word[0] == '-' && word[2] == 'l' && word[4] == 'g' && word[6] == 'd' && word[7]
        == 'i');
    lemma_missing_character(" "@, word, 'l');
    lemma_missing_character("/activate-rs"@, word, 'l');
    lemma_missing_character(" --debug-logs"@, word, 'i');
    lemma_missing_character(" --temp-path '"@, word, 'l');
    lemma_missing_character("' activate '"@, word, 'l');
    lemma_missing_character("' '"@, word, 'l');
    lemma_missing_character("'"@, word, 'l');
    lemma_missing_character(" --confirm-timeout "@, word, 'l');
    lemma_missing_character(" --magic-rollback"@, word, 'd');
    lemma_missing_character(" --auto-rollback"@, word, 'g');
    lemma_numeral_excludes(o.confirm_timeout as nat, word);
    assert(" --log-dir "@.subrange(1, 10) =~= word);
    assert(occurs_at(" --log-dir "@, word, 1));
    lemma_activate_command_pieces(o, word);
}

/// The wait command never shows `--confirm-timeout`, `--magic-rollback` or
/// `--auto-rollback`: such a text stands in it only where the prefix or a
/// path carries these very characters.
pub proof fn lemma_wait_shows_no_activation_option(o: WaitOptions)
    ensures
        includes(wait_command(o), "--confirm-timeout"@) <==> o.carries("--confirm-timeout"@),
        includes(wait_command(o), "--magic-rollback"@) <==> o.carries("--magic-rollback"@),
        includes(wait_command(o), "--auto-rollback"@) <==> o.carries("--auto-rollback"@),
{
    reveal_strlit("--confirm-timeout");
    reveal_strlit("--magic-rollback");
    reveal_strlit("--auto-rollback");
    reveal_strlit(" ");
    reveal_strlit("/activate-rs");
    reveal_strlit(" --debug-logs");
    reveal_strlit(" --log-dir ");
    reveal_strlit(" --temp-path '");
    reveal_strlit("' wait '");
    reveal_strlit("'");
    assert("--confirm-timeout"@[5] == 'f');
    assert("--magic-rollback"@[15] == 'k');
    assert("--auto-rollback"@[14] == 'k');
    lemma_wait_frame_lacks(o, "--confirm-timeout"@, 'f');
    lemma_wait_frame_lacks(o, "--magic-rollback"@, 'k');
    lemma_wait_frame_lacks(o, "--auto-rollback"@, 'k');
    lemma_wait_command_pieces(o, "--confirm-timeout"@);
    lemma_wait_command_pieces(o, "--magic-rollback"@);
    lemma_wait_command_pieces(o, "--auto-rollback"@);
}

/// No fixed text of the wait command includes a word with an `f` or a `k`.
proof fn lemma_wait_frame_lacks(o: WaitOptions, word: Seq<char>, c: char)
    requires
        word.contains(c),
        c == 'f' || c == 'k',
    ensures
        !o.frame_includes(word),
{
    reveal_strlit(" ");
    reveal_strlit("/activate-rs");
    reveal_strlit(" --debug-logs");
    reveal_strlit(" --log-dir ");
    reveal_strlit(" --temp-path '");
    reveal_strlit("' wait '");
    reveal_strlit("'");
    lemma_missing_character(" "@, word, c);
    lemma_missing_character("/activate-rs"@, word, c);
    lemma_missing_character(" --debug-logs"@, word, c);
    lemma_missing_character(" --log-dir "@, word, c);
    lemma_missing_character(" --temp-path '"@, word, c);
    lemma_missing_character("' wait '"@, word, c);
    lemma_missing_character("'"@, word, c);
}

/// The prefix with the space behind it, or nothing.
pub open spec fn prefix_part(sudo: Option<Seq<char>>) -> Seq<char> {
    match sudo {
        Some(prefix) => prefix + " "@,
        None => Seq::empty(),
    }
}

/// The parts of the activation command, in their order: the prefix, the
/// binary, the two logging options, the required arguments, the timeout, and
/// the two rollback options. The part of an option that is not asked for is
/// empty.
pub open spec fn activate_parts(o: ActivationOptions) -> Seq<Seq<char>> {
    seq![
        prefix_part(o.sudo),
        o.closure + "/activate-rs"@,
        flag(o.debug_logs, " --debug-logs"@),
        log_dir_segment(o.log_dir),
        " --temp-path '"@ + o.temp_path + "' activate '"@ + o.closure + "' '"@ + o.profile_path
            + "'"@,
        " --confirm-timeout "@ + decimal(o.confirm_timeout as nat),
        flag(o.magic_rollback, " --magic-rollback"@),
        flag(o.auto_rollback, " --auto-rollback"@),
    ]
}

/// The parts of the wait command, in their order: the prefix, the binary,
/// the two logging options, and the required arguments.
pub open spec fn wait_parts(o: WaitOptions) -> Seq<Seq<char>> {
    seq![
        prefix_part(o.sudo),
        o.closure + "/activate-rs"@,
        flag(o.debug_logs, " --debug-logs"@),
        log_dir_segment(o.log_dir),
        " --temp-path '"@ + o.temp_path + "' wait '"@ + o.closure + "'"@,
    ]
}

/// A command behind its prefix is the prefix part and the command.
proof fn lemma_prefix_is_a_part(sudo: Option<Seq<char>>, command: Seq<char>)
    ensures
        with_prefix(sudo, command) == prefix_part(sudo) + command,
{
    assert(with_prefix(sudo, command) =~= prefix_part(sudo) + command);
}

/// Joining the first four parts of a command gives the prefix part and the
/// start of the call.
proof fn lemma_join_start(
    sudo: Option<Seq<char>>,
    closure: Seq<char>,
    debug_logs: bool,
    log_dir: Option<Seq<char>>,
)
    ensures
        join(
            seq![
                prefix_part(sudo),
                closure + "/activate-rs"@,
                flag(debug_logs, " --debug-logs"@),
                log_dir_segment(log_dir),
            ],
        ) == prefix_part(sudo) + program(closure, debug_logs, log_dir),
{
    let pre = prefix_part(sudo);
    let binary = closure + "/activate-rs"@;
    let debug = flag(debug_logs, " --debug-logs"@);
    let log = log_dir_segment(log_dir);
    let none = Seq::<Seq<char>>::empty();
    let u1 = none.push(pre);
    let u2 = u1.push(binary);
    let u3 = u2.push(debug);
    let u4 = u3.push(log);
    assert(u4 =~= seq![pre, binary, debug, log]);
    lemma_join_push(none, pre);
    lemma_join_push(u1, binary);
    lemma_join_push(u2, debug);
    lemma_join_push(u3, log);
    assert(join(none) + pre =~= pre);
    lemma_concat_is_associative(pre, binary, debug);
    lemma_concat_is_associative(pre, binary + debug, log);
}

/// The activation command is its parts, joined.
pub proof fn lemma_activate_command_is_its_parts(o: ActivationOptions)
    ensures
        join(activate_parts(o)) == activate_command(o),
{
    let parts = activate_parts(o);
    let pre = prefix_part(o.sudo);
    let start = program(o.closure, o.debug_logs, o.log_dir);
    let timeout = decimal(o.confirm_timeout as nat);
    let u4 = seq![parts[0], parts[1], parts[2], parts[3]];
    let u5 = u4.push(parts[4]);
    let u6 = u5.push(parts[5]);
    let u7 = u6.push(parts[6]);
    let u8 = u7.push(parts[7]);
    assert(u8 =~= parts);
    lemma_join_start(o.sudo, o.closure, o.debug_logs, o.log_dir);
    lemma_join_push(u4, parts[4]);
    lemma_join_push(u5, parts[5]);
    lemma_join_push(u6, parts[6]);
    lemma_join_push(u7, parts[7]);
    let c1 = start + " --temp-path '"@;
    let c2 = c1 + o.temp_path;
    let c3 = c2 + "' activate '"@;
    let c4 = c3 + o.closure;
    let c5 = c4 + "' '"@;
    let c6 = c5 + o.profile_path;
    let c7 = c6 + "'"@;
    assert(c7 == start + parts[4]) by {
        let r1 = " --temp-path '"@;
        let r2 = r1 + o.temp_path;
        let r3 = r2 + "' activate '"@;
        let r4 = r3 + o.closure;
        let r5 = r4 + "' '"@;
        let r6 = r5 + o.profile_path;
        lemma_concat_is_associative(start, r1, o.temp_path);
        lemma_concat_is_associative(start, r2, "' activate '"@);
        lemma_concat_is_associative(start, r3, o.closure);
        lemma_concat_is_associative(start, r4, "' '"@);
        lemma_concat_is_associative(start, r5, o.profile_path);
        lemma_concat_is_associative(start, r6, "'"@);
    }
    let c8 = c7 + " --confirm-timeout "@;
    let c9 = c8 + timeout;
    lemma_concat_is_associative(c7, " --confirm-timeout "@, timeout);
    let c10 = c9 + parts[6];
    let c11 = c10 + parts[7];
    assert(c11 == bare_activate_command(o));
    lemma_concat_is_associative(pre, start, parts[4]);
    lemma_concat_is_associative(pre, c7, parts[5]);
    lemma_concat_is_associative(pre, c9, parts[6]);
    lemma_concat_is_associative(pre, c10, parts[7]);
    lemma_prefix_is_a_part(o.sudo, c11);
}

/// The wait command is its parts, joined.
pub proof fn lemma_wait_command_is_its_parts(o: WaitOptions)
    ensures
        join(wait_parts(o)) == wait_command(o),
{
    let parts = wait_parts(o);
    let pre = prefix_part(o.sudo);
    let start = program(o.closure, o.debug_logs, o.log_dir);
    let u4 = seq![parts[0], parts[1], parts[2], parts[3]];
    let u5 = u4.push(parts[4]);
    assert(u5 =~= parts);
    lemma_join_start(o.sudo, o.closure, o.debug_logs, o.log_dir);
    lemma_join_push(u4, parts[4]);
    let c1 = start + " --temp-path '"@;
    let c2 = c1 + o.temp_path;
    let c3 = c2 + "' wait '"@;
    let c4 = c3 + o.closure;
    let c5 = c4 + "'"@;
    assert(c5 == start + parts[4]) by {
        let r1 = " --temp-path '"@;
        let r2 = r1 + o.temp_path;
        let r3 = r2 + "' wait '"@;
        let r4 = r3 + o.closure;
        lemma_concat_is_associative(start, r1, o.temp_path);
        lemma_concat_is_associative(start, r2, "' wait '"@);
        lemma_concat_is_associative(start, r3, o.closure);
        lemma_concat_is_associative(start, r4, "'"@);
    }
    assert(c5 == bare_wait_command(o));
    lemma_concat_is_associative(pre, start, parts[4]);
    lemma_prefix_is_a_part(o.sudo, c5);
}

/// The parts of the activation command stand in it in their fixed order,
/// whichever options are asked for: of two parts, the earlier one has ended
/// where the later one starts.
pub proof fn lemma_activate_parts_in_order(o: ActivationOptions, j: int, k: int)
    requires
        0 <= j < k < activate_parts(o).len(),
    ensures
        stands_before(activate_command(o), activate_parts(o)[j], activate_parts(o)[k]),
        occurs_at(activate_command(o), activate_parts(o)[j], place(activate_parts(o), j)),
        occurs_at(activate_command(o), activate_parts(o)[k], place(activate_parts(o), k)),
        place(activate_parts(o), j) + activate_parts(o)[j].len() <= place(activate_parts(o), k),
{
    lemma_activate_command_is_its_parts(o);
    lemma_parts_stand_in_order(activate_parts(o), j, k);
}

/// The parts of the wait command stand in it in their fixed order, whichever
/// options are asked for.
pub proof fn lemma_wait_parts_in_order(o: WaitOptions, j: int, k: int)
    requires
        0 <= j < k < wait_parts(o).len(),
    ensures
        stands_before(wait_command(o), wait_parts(o)[j], wait_parts(o)[k]),
        occurs_at(wait_command(o), wait_parts(o)[j], place(wait_parts(o), j)),
        occurs_at(wait_command(o), wait_parts(o)[k], place(wait_parts(o), k)),
        place(wait_parts(o), j) + wait_parts(o)[j].len() <= place(wait_parts(o), k),
{
    lemma_wait_command_is_its_parts(o);
    lemma_parts_stand_in_order(wait_parts(o), j, k);
}

/// Where there is a log directory, the activation command shows the option
/// with the directory behind it.
pub proof fn lemma_activate_shows_the_log_directory(o: ActivationOptions, dir: Seq<char>)
    requires
        o.log_dir == Some(dir),
    ensures
        includes(activate_command(o), " --log-dir "@ + dir),
{
    lemma_activate_command_is_its_parts(o);
    lemma_part_stands_at_its_place(activate_parts(o), 3);
}

/// The wait command shows `--debug-logs` exactly if detailed logging is
/// asked for, and `--log-dir` exactly if there is a log directory; or else
/// if the prefix or a path carries these very characters.
pub proof fn lemma_wait_shows_logging_options(o: WaitOptions)
    ensures
        includes(wait_command(o), "--debug-logs"@) <==> o.debug_logs || o.carries("--debug-logs"@),
        includes(wait_command(o), "--log-dir"@) <==> o.log_dir is Some || o.carries("--log-dir"@),
{
    reveal_strlit("--debug-logs");
    reveal_strlit("--log-dir");
    reveal_strlit(" ");
    reveal_strlit("/activate-rs");
    reveal_strlit(" --debug-logs");
    reveal_strlit(" --log-dir ");
    reveal_strlit(" --temp-path '");
    reveal_strlit("' wait '");
    reveal_strlit("'");
    let debug = "--debug-logs"@;
    assert(debug[4] == 'b' && debug[6] == 'g');
    lemma_missing_character(" "@, debug, 'g');
    lemma_missing_character("/activate-rs"@, debug, 'g');
    lemma_missing_character(" --log-dir "@, debug, 'b');
    lemma_missing_character(" --temp-path '"@, debug, 'g');
    lemma_missing_character("' wait '"@, debug, 'g');
    lemma_missing_character("'"@, debug, 'g');
    assert(" --debug-logs"@.subrange(1, 13) =~= debug);
    assert(occurs_at(" --debug-logs"@, debug, 1));
    lemma_wait_command_pieces(o, debug);
    let log = "--log-dir"@;
    assert(log[2] == 'l' && log[7] == 'i');
    lemma_missing_character(" "@, log, 'l');
    lemma_missing_character("/activate-rs"@, log, 'l');
    lemma_missing_character(" --debug-logs"@, log, 'i');
    lemma_missing_character(" --temp-path '"@, log, 'l');
    lemma_missing_character("' wait '"@, log, 'l');
    lemma_missing_character("'"@, log, 'l');
    assert(" --log-dir "@.subrange(1, 10) =~= log);
    assert(occurs_at(" --log-dir "@, log, 1));
    lemma_wait_command_pieces(o, log);
}

/// Where there is a log directory, the wait command shows the option with
/// the directory behind it.
pub proof fn lemma_wait_shows_the_log_directory(o: WaitOptions, dir: Seq<char>)
    requires
        o.log_dir == Some(dir),
    ensures
        includes(wait_command(o), " --log-dir "@ + dir),
{
    lemma_wait_command_is_its_parts(o);
    lemma_part_stands_at_its_place(wait_parts(o), 3);
}

} // verus!
