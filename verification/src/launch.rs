//! Launch arguments: the renderer's debugging flags, and the debugging port of a running process.
use crate::text::{
    copy_all, decimal_text, parse_u16, same_text, split_words, strip_prefix, to_lower, trim,
    CharClass,
};
use vstd::prelude::*;

verus! {

pub const PORT_FLAG: &'static str = "--remote-debugging-port";

pub const ADDRESS_FLAG: &'static str = "--remote-debugging-address";

pub const LOOPBACK_ADDRESS_ARG: &'static str = "--remote-debugging-address=127.0.0.1";

/// The arguments to launch with, and the debugging port that they ask for.
#[derive(Debug, Clone)]
pub struct CodexAppInjectionLaunch {
    pub args: Vec<String>,
    pub port: Option<u16>,
}

/// `value` is the flag `name`, alone or with `=` and a value behind it.
pub open spec fn debug_arg(value: Seq<char>, name: Seq<char>) -> bool {
    value == name || crate::text::has_prefix(value, name.push('='))
}

/// `value` is one of the two debugging flags, in either form.
pub open spec fn any_debug_arg(value: Seq<char>) -> bool {
    debug_arg(value, PORT_FLAG@) || debug_arg(value, ADDRESS_FLAG@)
}

/// `value` is one of the two debugging flags with its value in the next argument.
pub open spec fn bare_debug_flag(value: Seq<char>) -> bool {
    value == PORT_FLAG@ || value == ADDRESS_FLAG@
}

/// `args` without the debugging flags and their values.
pub open spec fn kept_args(args: Seq<Seq<char>>) -> Seq<Seq<char>>
    decreases args.len(),
{
    if args.len() == 0 {
        seq![]
    } else if bare_debug_flag(args[0]) {
        if args.len() == 1 {
            seq![]
        } else {
            kept_args(args.skip(2))
        }
    } else if any_debug_arg(args[0]) {
        kept_args(args.drop_first())
    } else {
        seq![args[0]] + kept_args(args.drop_first())
    }
}

/// The argument that asks for a debugging port.
pub open spec fn port_arg(port: u16) -> Seq<char> {
    PORT_FLAG@.push('=') + crate::text::decimal(port as nat)
}

/// `args` with its debugging flags replaced by a loopback address and `port`.
pub open spec fn launch_args(args: Seq<Seq<char>>, port: u16) -> Seq<Seq<char>> {
    kept_args(args).push(LOOPBACK_ADDRESS_ARG@).push(port_arg(port))
}

pub fn is_debug_arg(value: &str, name: &str) -> (found: bool)
    ensures
        found == debug_arg(value@, name@),
{
    if same_text(value, name) {
        return true;
    }
    let mut prefix = name.to_owned();
    prefix.push('=');
    strip_prefix(value, prefix.as_str()).is_some()
}

/// `existing` without the debugging flags and their values.
fn drop_debug_args(existing: &[String]) -> (args: Vec<String>)
    ensures
        args.deep_view() == kept_args(existing.deep_view()),
{
    let mut args: Vec<String> = Vec::new();
    let mut skip_next = false;
    let ghost all = existing.deep_view();
    let mut i: usize = 0;
    assert(args.deep_view() =~= seq![]);
    assert(all.skip(0) =~= all);
    assert(args.deep_view() + kept_args(all) =~= kept_args(all));
    while i < existing.len()
        invariant
            i <= existing.len(),
            all == existing.deep_view(),
            !skip_next ==> kept_args(all) == args.deep_view() + kept_args(all.skip(i as int)),
            skip_next ==> kept_args(all) == args.deep_view() + (if i == all.len() {
                seq![]
            } else {
                kept_args(all.skip(i + 1))
            }),
        decreases existing.len() - i,
    {
        let ghost rest = all.skip(i as int);
        let value = &existing[i];
        assert(rest[0] == value@);
        assert(rest.drop_first() =~= all.skip(i + 1));
        if skip_next {
            skip_next = false;
        } else if is_debug_arg(value.as_str(), PORT_FLAG) || is_debug_arg(
            value.as_str(),
            ADDRESS_FLAG,
        ) {
            if same_text(value.as_str(), PORT_FLAG) || same_text(value.as_str(), ADDRESS_FLAG) {
                skip_next = true;
                assert(rest.len() > 1 ==> rest.skip(2) =~= all.skip(i + 2));
            }
        } else {
            let ghost before = args.deep_view();
            args.push(value.clone());
            assert(args.deep_view() =~= before.push(value@));
            assert(before + (seq![value@] + kept_args(all.skip(i + 1))) =~= args.deep_view()
                + kept_args(all.skip(i + 1)));
        }
        i = i + 1;
    }
    assert(all.skip(i as int) =~= seq![]);
    assert(args.deep_view() + seq![] =~= args.deep_view());
    args
}

/// The arguments to launch with: `existing` as it stands where injection is off; otherwise its
/// debugging flags give way to a loopback address and the reserved port. `reserved` is the
/// outcome of reserving a port, and only counts where injection is on.
pub fn build_launch_args(
    existing: &[String],
    enabled: bool,
    reserved: Result<u16, String>,
) -> (launch: Result<CodexAppInjectionLaunch, String>)
    ensures
        !enabled ==> (launch matches Ok(l) && l.args.deep_view() == existing.deep_view() && l.port
            == None::<u16>),
        enabled ==> match reserved {
            Ok(port) => launch matches Ok(l) && l.args.deep_view() == launch_args(
                existing.deep_view(),
                port,
            ) && l.port == Some(port),
            Err(message) => launch == Err::<CodexAppInjectionLaunch, String>(message),
        },
{
    if !enabled {
        let args = copy_all(existing);
        return Ok(CodexAppInjectionLaunch { args, port: None });
    }
    let mut args = drop_debug_args(existing);
    match reserved {
        Ok(port) => {
            let mut last = PORT_FLAG.to_owned();
            last.push('=');
            last.append(decimal_text(port as i64).as_str());
            args.push(LOOPBACK_ADDRESS_ARG.to_owned());
            args.push(last);
            assert(args.deep_view() =~= launch_args(existing.deep_view(), port));
            Ok(CodexAppInjectionLaunch { args, port: Some(port) })
        },
        Err(message) => Err(message),
    }
}

/// `token` is the port flag, alone or with `=` and a value behind it.
pub open spec fn names_port(token: Seq<char>) -> bool {
    debug_arg(token, PORT_FLAG@)
}

/// The port that `text` writes down, between quotation marks or not; port zero does not count.
pub open spec fn port_number(text: Seq<char>) -> Option<u16> {
    match crate::text::parsed_u16(crate::text::trimmed(text, CharClass::Quote)) {
        Some(port) => if port > 0 {
            Some(port)
        } else {
            None
        },
        None => None,
    }
}

/// The debugging port among the words of a command line: the first word that is the port flag
/// decides, with the value behind its `=` or, failing that, with the next word.
pub open spec fn port_in_words(words: Seq<Seq<char>>) -> Option<u16>
    decreases words.len(),
{
    if words.len() == 0 {
        None
    } else {
        let token = crate::text::trimmed(words[0], CharClass::Quote);
        if token == PORT_FLAG@ {
            if words.len() == 1 {
                None
            } else {
                port_number(words[1])
            }
        } else if names_port(token) {
            port_number(token.skip((PORT_FLAG@.len() + 1) as int))
        } else {
            port_in_words(words.drop_first())
        }
    }
}

/// The debugging port that a command line asks for.
pub open spec fn port_in_command_line(command_line: Seq<char>) -> Option<u16> {
    port_in_words(crate::text::words(command_line))
}

fn read_port(text: &str) -> (port: Option<u16>)
    ensures
        port == port_number(text@),
{
    match parse_u16(trim(text, CharClass::Quote)) {
        Some(port) => if port > 0 {
            Some(port)
        } else {
            None
        },
        None => None,
    }
}

pub fn remote_debugging_port_from_command_line(command_line: &str) -> (port: Option<u16>)
    ensures
        port == port_in_command_line(command_line@),
{
    let parts = split_words(command_line);
    let mut assignment = PORT_FLAG.to_owned();
    assignment.push('=');
    let ghost all = parts.deep_view();
    assert(all.skip(0) =~= all);
    let mut i: usize = 0;
    while i < parts.len()
        invariant
            i <= parts.len(),
            all == parts.deep_view(),
            all == crate::text::words(command_line@),
            assignment@ == PORT_FLAG@.push('='),
            port_in_words(all) == port_in_words(all.skip(i as int)),
        decreases parts.len() - i,
    {
        assert(all.skip(i as int)[0] == parts@[i as int]@);
        assert(all.skip(i as int).drop_first() =~= all.skip(i + 1));
        let token = trim(parts[i].as_str(), CharClass::Quote);
        if same_text(token, PORT_FLAG) {
            if i + 1 < parts.len() {
                assert(all.skip(i as int)[1] == parts@[i + 1]@);
                return read_port(parts[i + 1].as_str());
            }
            return None;
        }
        match strip_prefix(token, assignment.as_str()) {
            Some(value) => {
                return read_port(value);
            },
            None => {},
        }
        i = i + 1;
    }
    None
}

/// The key under which a profile directory is tracked.
pub open spec fn profile_key_of(path: Seq<char>) -> Seq<char> {
    crate::text::lowered(crate::text::trimmed(path, CharClass::Space))
}

/// The key under which the profile at `path` is tracked; `path` is the directory's resolved path.
pub fn profile_key(path: &str) -> (key: String)
    ensures
        key@ == profile_key_of(path@),
{
    to_lower(trim(path, CharClass::Space))
}

/// No debugging flag survives.
pub proof fn law_no_debug_arg_is_kept(args: Seq<Seq<char>>)
    ensures
        forall|i: int|
            0 <= i < kept_args(args).len() ==> !any_debug_arg(#[trigger] kept_args(args)[i]),
    decreases args.len(),
{
    if args.len() > 0 {
        if bare_debug_flag(args[0]) {
            if args.len() > 1 {
                law_no_debug_arg_is_kept(args.skip(2));
                assert(kept_args(args) == kept_args(args.skip(2)));
            }
        } else {
            law_no_debug_arg_is_kept(args.drop_first());
            let rest = kept_args(args.drop_first());
            if any_debug_arg(args[0]) {
                assert(kept_args(args) == rest);
            } else {
                assert forall|i: int| 0 <= i < kept_args(args).len() implies !any_debug_arg(
                    #[trigger] kept_args(args)[i],
                ) by {
                    if i > 0 {
                        assert(kept_args(args)[i] == rest[i - 1]);
                    }
                }
            }
        }
    }
}

/// Arguments without a debugging flag are all kept, whatever assignments of the flags follow.
proof fn lemma_plain_args_stay(args: Seq<Seq<char>>, flags: Seq<Seq<char>>)
    requires
        forall|i: int| 0 <= i < args.len() ==> !any_debug_arg(#[trigger] args[i]),
        forall|i: int|
            0 <= i < flags.len() ==> any_debug_arg(#[trigger] flags[i]) && !bare_debug_flag(
                flags[i],
            ),
    ensures
        kept_args(args + flags) == args,
    decreases args.len() + flags.len(),
{
    let whole = args + flags;
    if args.len() > 0 {
        assert(whole[0] == args[0]);
        assert(whole.drop_first() =~= args.drop_first() + flags);
        lemma_plain_args_stay(args.drop_first(), flags);
        assert(kept_args(whole) =~= args);
    } else if flags.len() > 0 {
        assert(whole =~= flags);
        assert(flags.drop_first() =~= args + flags.drop_first());
        lemma_plain_args_stay(args, flags.drop_first());
    } else {
        assert(kept_args(whole) =~= args);
    }
}

proof fn lemma_added_args(port: u16)
    ensures
        any_debug_arg(LOOPBACK_ADDRESS_ARG@),
        !bare_debug_flag(LOOPBACK_ADDRESS_ARG@),
        any_debug_arg(port_arg(port)),
        !bare_debug_flag(port_arg(port)),
{
    reveal_strlit("--remote-debugging-port");
    reveal_strlit("--remote-debugging-address");
    reveal_strlit("--remote-debugging-address=127.0.0.1");
    crate::text::lemma_decimal_read_back(port as nat);
    assert(LOOPBACK_ADDRESS_ARG@.take(ADDRESS_FLAG@.push('=').len() as int)
        =~= ADDRESS_FLAG@.push('='));
    assert(port_arg(port).take(PORT_FLAG@.push('=').len() as int) =~= PORT_FLAG@.push('='));
    assert(port_arg(port)[PORT_FLAG@.len() as int] == '=');
    assert(ADDRESS_FLAG@[PORT_FLAG@.len() as int] != '=');
}

/// A launch asks for the loopback address and the reserved port, and no other debugging flag
/// stands among its arguments.
pub proof fn law_launch_is_loopback_only(args: Seq<Seq<char>>, port: u16)
    ensures
        launch_args(args, port).contains(LOOPBACK_ADDRESS_ARG@),
        launch_args(args, port).contains(port_arg(port)),
        forall|i: int|
            0 <= i < launch_args(args, port).len() && any_debug_arg(
                #[trigger] launch_args(args, port)[i],
            ) ==> launch_args(args, port)[i] == LOOPBACK_ADDRESS_ARG@ || launch_args(args, port)[i]
                == port_arg(port),
{
    law_no_debug_arg_is_kept(args);
    let all = launch_args(args, port);
    let kept = kept_args(args);
    assert(all[kept.len() as int] == LOOPBACK_ADDRESS_ARG@);
    assert(all[kept.len() as int + 1] == port_arg(port));
    assert forall|i: int| 0 <= i < all.len() && any_debug_arg(#[trigger] all[i]) implies all[i]
        == LOOPBACK_ADDRESS_ARG@ || all[i] == port_arg(port) by {
        if i < kept.len() {
            assert(all[i] == kept[i]);
        }
    }
}

/// Arguments among which no debugging flag stands are all kept, in their order.
pub proof fn law_other_args_are_kept(args: Seq<Seq<char>>)
    requires
        forall|i: int| 0 <= i < args.len() ==> !any_debug_arg(#[trigger] args[i]),
    ensures
        kept_args(args) == args,
{
    lemma_plain_args_stay(args, seq![]);
    assert(args + seq![] =~= args);
}

/// Launch arguments that are launched with again keep what they kept, and take the new port in
/// place of the old one.
pub proof fn law_relaunch_replaces_port(args: Seq<Seq<char>>, first: u16, second: u16)
    ensures
        kept_args(launch_args(args, first)) == kept_args(args),
        launch_args(launch_args(args, first), second) == launch_args(args, second),
{
    let flags = seq![LOOPBACK_ADDRESS_ARG@, port_arg(first)];
    lemma_added_args(first);
    law_no_debug_arg_is_kept(args);
    lemma_plain_args_stay(kept_args(args), flags);
    assert(launch_args(args, first) =~= kept_args(args) + flags);
}

/// No word of `text` is the port flag.
pub open spec fn leaves_port_open(text: Seq<char>) -> bool {
    forall|i: int|
        0 <= i < crate::text::words(text).len() ==> !names_port(
            crate::text::trimmed(#[trigger] crate::text::words(text)[i], CharClass::Quote),
        )
}

proof fn lemma_port_in_later_words(head: Seq<Seq<char>>, tail: Seq<Seq<char>>)
    requires
        forall|i: int|
            0 <= i < head.len() ==> !names_port(
                crate::text::trimmed(#[trigger] head[i], CharClass::Quote),
            ),
    ensures
        port_in_words(head + tail) == port_in_words(tail),
    decreases head.len(),
{
    if head.len() == 0 {
        assert(head + tail =~= tail);
    } else {
        assert((head + tail)[0] == head[0]);
        assert((head + tail).drop_first() =~= head.drop_first() + tail);
        lemma_port_in_later_words(head.drop_first(), tail);
    }
}

/// A text that neither begins nor ends with a quotation mark is left alone.
proof fn lemma_unquoted(text: Seq<char>)
    requires
        text.len() > 0,
        !CharClass::Quote.has(text[0]),
        !CharClass::Quote.has(text.last()),
    ensures
        crate::text::trimmed(text, CharClass::Quote) == text,
{
}

proof fn lemma_port_is_read_back(front: Seq<Seq<char>>, port: u16)
    requires
        port > 0,
        leaves_port_open(crate::text::joined(front)),
    ensures
        port_in_command_line(
            crate::text::joined(front.push(LOOPBACK_ADDRESS_ARG@).push(port_arg(port))),
        ) == Some(port),
{
    let address = LOOPBACK_ADDRESS_ARG@;
    let last = port_arg(port);
    let most = front.push(address);
    let whole = most.push(last);
    let digits = crate::text::decimal(port as nat);
    reveal_strlit("--remote-debugging-port");
    reveal_strlit("--remote-debugging-address=127.0.0.1");
    crate::text::lemma_decimal_read_back(port as nat);
    let words = crate::text::words(crate::text::joined(front));
    crate::text::lemma_single_word(address);
    assert(most.drop_last() =~= front);
    assert(whole.drop_last() =~= most);
    assert(crate::text::words(crate::text::joined(most)) =~= words + seq![address]) by {
        if front.len() == 0 {
            assert(crate::text::joined(most) == address);
        } else {
            crate::text::lemma_words_concat(crate::text::joined(front), address);
        }
    }
    assert(crate::text::joined(whole) == crate::text::joined(most) + seq![' '] + last);
    crate::text::lemma_words_concat(crate::text::joined(most), last);
    assert forall|k: int| 0 <= k < last.len() implies !crate::text::is_space(last[k]) by {
        if k > PORT_FLAG@.len() {
            assert(last[k] == digits[k - PORT_FLAG@.len() - 1]);
            assert(crate::text::is_digit(digits[k - PORT_FLAG@.len() - 1]));
        }
    }
    crate::text::lemma_single_word(last);
    let head = words + seq![address];
    assert(crate::text::words(crate::text::joined(whole)) =~= head + seq![last]);
    lemma_unquoted(address);
    assert(address.len() > PORT_FLAG@.len() && address[PORT_FLAG@.len() as int] != '=');
    assert(!crate::text::has_prefix(address, PORT_FLAG@.push('='))) by {
        assert(address.take((PORT_FLAG@.len() + 1) as int)[PORT_FLAG@.len() as int] != '=');
    }
    lemma_port_in_later_words(head, seq![last]);
    assert(digits[digits.len() - 1] == last.last());
    assert(crate::text::is_digit(digits[digits.len() - 1]));
    lemma_unquoted(last);
    lemma_added_args(port);
    assert(last.take(PORT_FLAG@.push('=').len() as int) =~= PORT_FLAG@.push('='));
    assert(last.skip((PORT_FLAG@.len() + 1) as int) =~= digits);
    assert(crate::text::is_digit(digits[0]));
    lemma_unquoted(digits);
    assert(port_number(digits) == Some(port));
}

/// The port of a launch is found again among its arguments, for every argument list that does not
/// itself ask for a port in some other spelling.
pub proof fn law_launch_port_is_read_back(args: Seq<Seq<char>>, port: u16)
    requires
        port > 0,
        leaves_port_open(crate::text::joined(kept_args(args))),
    ensures
        port_in_command_line(crate::text::joined(launch_args(args, port))) == Some(port),
{
    lemma_port_is_read_back(kept_args(args), port);
}

/// Texts none of which holds the port flag do not ask for a port when they are joined.
pub proof fn law_port_is_open_without_flag(args: Seq<Seq<char>>)
    requires
        forall|i: int| 0 <= i < args.len() ==> !crate::text::holds_text(
            #[trigger] args[i],
            PORT_FLAG@,
        ),
    ensures
        leaves_port_open(crate::text::joined(args)),
    decreases args.len(),
{
    if args.len() > 0 {
        let front = args.drop_last();
        let last = args.last();
        let last_words = crate::text::words(last);
        assert(last == args[args.len() - 1]);
        assert(forall|i: int| 0 <= i < front.len() ==> front[i] == args[i]);
        law_port_is_open_without_flag(front);
        crate::text::lemma_holds_words(last);
        assert forall|i: int| 0 <= i < last_words.len() implies !names_port(
            crate::text::trimmed(#[trigger] last_words[i], CharClass::Quote),
        ) by {
            let token = crate::text::trimmed(last_words[i], CharClass::Quote);
            if names_port(token) {
                assert(token.take(PORT_FLAG@.len() as int) =~= PORT_FLAG@) by {
                    if token != PORT_FLAG@ {
                        let assigned = token.take(PORT_FLAG@.push('=').len() as int);
                        assert(assigned.take(PORT_FLAG@.len() as int) =~= PORT_FLAG@);
                        assert(assigned.take(PORT_FLAG@.len() as int) =~= token.take(
                            PORT_FLAG@.len() as int,
                        ));
                    }
                }
                crate::text::lemma_holds_prefix(token, PORT_FLAG@);
                crate::text::lemma_holds_trimmed(last_words[i], CharClass::Quote);
                crate::text::lemma_holds_text_of_part(last_words[i], token, PORT_FLAG@);
                crate::text::lemma_holds_text_of_part(last, last_words[i], PORT_FLAG@);
            }
        }
        if args.len() > 1 {
            let front_words = crate::text::words(crate::text::joined(front));
            crate::text::lemma_words_concat(crate::text::joined(front), last);
            let all = crate::text::words(crate::text::joined(args));
            assert(all == front_words + last_words);
            assert forall|i: int| 0 <= i < all.len() implies !names_port(
                crate::text::trimmed(#[trigger] all[i], CharClass::Quote),
            ) by {
                if i < front_words.len() {
                    assert(all[i] == front_words[i]);
                } else {
                    assert(all[i] == last_words[i - front_words.len()]);
                }
            }
        }
    } else {
        assert(crate::text::words(crate::text::joined(args)) =~= seq![]);
    }
}

/// The port of a launch is found again among its arguments where no other of them holds the port
/// flag.
pub proof fn law_only_port_flag_is_read_back(args: Seq<Seq<char>>, port: u16)
    requires
        port > 0,
        forall|i: int|
            0 <= i < launch_args(args, port).len() - 1 ==> !crate::text::holds_text(
                #[trigger] launch_args(args, port)[i],
                PORT_FLAG@,
            ),
    ensures
        port_in_command_line(crate::text::joined(launch_args(args, port))) == Some(port),
{
    let kept = kept_args(args);
    assert(forall|i: int| 0 <= i < kept.len() ==> kept[i] == launch_args(args, port)[i]);
    law_port_is_open_without_flag(kept);
    law_launch_port_is_read_back(args, port);
}

/// The port of a launch is found again in the command line of the launched process, for every
/// program and every argument list that does not itself ask for a port in some other spelling.
pub proof fn law_process_port_is_read_back(program: Seq<char>, args: Seq<Seq<char>>, port: u16)
    requires
        port > 0,
        leaves_port_open(program),
        leaves_port_open(crate::text::joined(kept_args(args))),
    ensures
        port_in_command_line(
            crate::text::joined(seq![program] + launch_args(args, port)),
        ) == Some(port),
{
    let front = seq![program] + kept_args(args);
    lemma_joined_words(program, kept_args(args));
    lemma_port_is_read_back(front, port);
    assert(front.push(LOOPBACK_ADDRESS_ARG@).push(port_arg(port)) =~= seq![program] + launch_args(
        args,
        port,
    ));
}

/// The words of a program and its arguments are those of the program and those of the arguments.
proof fn lemma_joined_words(program: Seq<char>, args: Seq<Seq<char>>)
    requires
        leaves_port_open(program),
        leaves_port_open(crate::text::joined(args)),
    ensures
        leaves_port_open(crate::text::joined(seq![program] + args)),
{
    let whole = seq![program] + args;
    if args.len() == 0 {
        assert(whole =~= seq![program]);
    } else {
        lemma_joined_front(program, args);
        let a = crate::text::words(program);
        let b = crate::text::words(crate::text::joined(args));
        crate::text::lemma_words_concat(program, crate::text::joined(args));
        assert forall|i: int| 0 <= i < (a + b).len() implies !names_port(
            crate::text::trimmed(#[trigger] (a + b)[i], CharClass::Quote),
        ) by {
            if i < a.len() {
                assert((a + b)[i] == a[i]);
            } else {
                assert((a + b)[i] == b[i - a.len()]);
            }
        }
    }
}

proof fn lemma_joined_front(program: Seq<char>, args: Seq<Seq<char>>)
    requires
        args.len() > 0,
    ensures
        crate::text::joined(seq![program] + args) == program + seq![' '] + crate::text::joined(
            args,
        ),
    decreases args.len(),
{
    let whole = seq![program] + args;
    assert(whole.drop_last() =~= seq![program] + args.drop_last());
    assert(whole.last() == args.last());
    if args.len() == 1 {
        assert(whole.drop_last() =~= seq![program]);
        assert(crate::text::joined(seq![program]) == program);
    } else {
        lemma_joined_front(program, args.drop_last());
        assert(crate::text::joined(whole) =~= program + seq![' '] + crate::text::joined(args));
    }
}

/// Which arguments are debugging flags: the port and the address, alone or with a value behind
/// `=`; alone they take the next argument for their value.
pub proof fn law_debugging_flags(value: Seq<char>)
    ensures
        ({
            let port = "--remote-debugging-port"@;
            let address = "--remote-debugging-address"@;
            &&& bare_debug_flag(value) <==> value == port || value == address
            &&& any_debug_arg(value) <==> {
                ||| value == port
                ||| value == address
                ||| exists|rest: Seq<char>| value == #[trigger] (port.push('=') + rest)
                ||| exists|rest: Seq<char>| value == #[trigger] (address.push('=') + rest)
            }
        }),
{
    let port = "--remote-debugging-port"@;
    let address = "--remote-debugging-address"@;
    let after_port = value.skip(port.push('=').len() as int);
    let after_address = value.skip(address.push('=').len() as int);
    crate::text::law_prefixes_and_suffixes(value, port.push('='), after_port);
    crate::text::law_prefixes_and_suffixes(value, address.push('='), after_address);
    if crate::text::has_prefix(value, port.push('=')) {
        assert(value == port.push('=') + after_port);
    }
    if crate::text::has_prefix(value, address.push('=')) {
        assert(value == address.push('=') + after_address);
    }
    if exists|rest: Seq<char>| value == #[trigger] (port.push('=') + rest) {
        let rest = choose|rest: Seq<char>| value == #[trigger] (port.push('=') + rest);
        crate::text::law_prefixes_and_suffixes(value, port.push('='), rest);
    }
    if exists|rest: Seq<char>| value == #[trigger] (address.push('=') + rest) {
        let rest = choose|rest: Seq<char>| value == #[trigger] (address.push('=') + rest);
        crate::text::law_prefixes_and_suffixes(value, address.push('='), rest);
    }
}

/// Arguments none of which is a debugging flag alone lose the debugging flags among them and
/// nothing else, and what follows them is looked at by itself.
pub proof fn law_only_flags_are_dropped(args: Seq<Seq<char>>, tail: Seq<Seq<char>>)
    requires
        forall|i: int| 0 <= i < args.len() ==> !bare_debug_flag(#[trigger] args[i]),
    ensures
        kept_args(args) == args.filter(|arg: Seq<char>| !any_debug_arg(arg)),
        kept_args(args + tail) == args.filter(|arg: Seq<char>| !any_debug_arg(arg)) + kept_args(
            tail,
        ),
    decreases args.len(),
{
    let plain = |arg: Seq<char>| !any_debug_arg(arg);
    lemma_flags_are_dropped(args, tail);
    lemma_flags_are_dropped(args, seq![]);
    assert(args + Seq::<Seq<char>>::empty() =~= args);
    assert(kept_args(seq![]) =~= seq![]);
    assert(args.filter(plain) + Seq::<Seq<char>>::empty() =~= args.filter(plain));
}

proof fn lemma_flags_are_dropped(args: Seq<Seq<char>>, tail: Seq<Seq<char>>)
    requires
        forall|i: int| 0 <= i < args.len() ==> !bare_debug_flag(#[trigger] args[i]),
    ensures
        kept_args(args + tail) == args.filter(|arg: Seq<char>| !any_debug_arg(arg)) + kept_args(
            tail,
        ),
    decreases args.len(),
{
    let plain = |arg: Seq<char>| !any_debug_arg(arg);
    reveal(Seq::filter);
    if args.len() == 0 {
        assert(args + tail =~= tail);
        assert(args.filter(plain) + kept_args(tail) =~= kept_args(tail));
    } else {
        let front = args.drop_last();
        let last = args.last();
        assert(last == args[args.len() - 1]);
        assert(forall|i: int| 0 <= i < front.len() ==> front[i] == args[i]);
        let rest = seq![last] + tail;
        assert(args + tail =~= front + rest);
        lemma_flags_are_dropped(front, rest);
        assert(rest[0] == last);
        assert(rest.drop_first() =~= tail);
        assert(kept_args(args + tail) =~= args.filter(plain) + kept_args(tail));
    }
}

/// A debugging flag alone is dropped together with the argument behind it, whatever that is, and
/// the arguments behind both are looked at by themselves.
pub proof fn law_bare_flags_take_their_value(
    args: Seq<Seq<char>>,
    flag: Seq<char>,
    value: Seq<char>,
    tail: Seq<Seq<char>>,
)
    requires
        forall|i: int| 0 <= i < args.len() ==> !bare_debug_flag(#[trigger] args[i]),
        bare_debug_flag(flag),
    ensures
        kept_args(args + seq![flag, value] + tail) == kept_args(args) + kept_args(tail),
        kept_args(args.push(flag)) == kept_args(args),
{
    law_only_flags_are_dropped(args, seq![flag, value] + tail);
    law_only_flags_are_dropped(args, seq![flag]);
    assert(args + seq![flag, value] + tail =~= args + (seq![flag, value] + tail));
    assert((seq![flag, value] + tail).skip(2) =~= tail);
    assert((seq![flag, value] + tail)[0] == flag);
    assert(args.push(flag) =~= args + seq![flag]);
    assert(kept_args(args) + Seq::<Seq<char>>::empty() =~= kept_args(args));
}

/// A launch has the arguments that are kept, then the loopback address, then the reserved port.
pub proof fn law_launch_ends_with_its_flags(args: Seq<Seq<char>>, port: u16)
    ensures
        launch_args(args, port) == kept_args(args) + seq![
            "--remote-debugging-address=127.0.0.1"@,
            "--remote-debugging-port="@ + crate::text::decimal_int(port as int),
        ],
{
    reveal_strlit("--remote-debugging-port");
    reveal_strlit("--remote-debugging-port=");
    assert("--remote-debugging-port="@ =~= "--remote-debugging-port"@.push('='));
    assert(launch_args(args, port) =~= kept_args(args) + seq![
        "--remote-debugging-address=127.0.0.1"@,
        "--remote-debugging-port="@ + crate::text::decimal_int(port as int),
    ]);
}

/// A word names no port: without its quotation marks it is not the port flag.
pub open spec fn is_other_word(word: Seq<char>) -> bool {
    let token = crate::text::trimmed(word, CharClass::Quote);
    &&& token != "--remote-debugging-port"@
    &&& !crate::text::has_prefix(token, "--remote-debugging-port"@.push('='))
}

/// The first word that is the port flag decides: by the next word where the flag stands alone, by
/// what stands behind its `=` otherwise, whatever follows. Without such a word there is no port.
pub proof fn law_first_port_flag_decides(
    head: Seq<Seq<char>>,
    word: Seq<char>,
    value: Seq<char>,
    tail: Seq<Seq<char>>,
)
    requires
        forall|i: int| 0 <= i < head.len() ==> is_other_word(#[trigger] head[i]),
    ensures
        ({
            let token = crate::text::trimmed(word, CharClass::Quote);
            let flag = "--remote-debugging-port"@;
            &&& port_in_words(head) is None
            &&& token == flag ==> port_in_words(head + seq![word, value] + tail) == port_number(
                value,
            )
            &&& token == flag ==> port_in_words(head.push(word)) is None
            &&& token == flag.push('=') + value ==> port_in_words(head + seq![word] + tail)
                == port_number(value)
        }),
{
    let token = crate::text::trimmed(word, CharClass::Quote);
    let flag = "--remote-debugging-port"@;
    lemma_port_in_later_words(head, seq![]);
    assert(head + Seq::<Seq<char>>::empty() =~= head);
    lemma_port_in_later_words(head, seq![word, value] + tail);
    assert(head + seq![word, value] + tail =~= head + (seq![word, value] + tail));
    lemma_port_in_later_words(head, seq![word]);
    assert(head.push(word) =~= head + seq![word]);
    lemma_port_in_later_words(head, seq![word] + tail);
    assert(head + seq![word] + tail =~= head + (seq![word] + tail));
    if token == flag.push('=') + value {
        crate::text::law_prefixes_and_suffixes(token, flag.push('='), value);
        assert(token.len() > flag.len());
        assert((seq![word] + tail)[0] == word);
    }
}

/// The text of a port is its digits, between quotation marks or not; nought is no port, and
/// neither is a number that is too large.
pub proof fn law_port_numbers(n: nat, quotes: Seq<char>)
    requires
        forall|i: int| 0 <= i < quotes.len() ==> (#[trigger] quotes[i]) == '"' || quotes[i] == '\'',
    ensures
        port_number(quotes + crate::text::decimal(n) + quotes) == if 0 < n <= 65535 {
            Some(n as u16)
        } else {
            None
        },
        port_number(quotes) is None,
{
    let digits = crate::text::decimal(n);
    crate::text::lemma_decimal_read_back(n);
    assert(crate::text::is_digit(digits[0]));
    assert(crate::text::is_digit(digits[digits.len() - 1]));
    crate::text::law_trimming_cuts_the_ends(quotes, digits, quotes, CharClass::Quote);
    crate::text::law_trimming_cuts_the_ends(quotes, seq![], seq![], CharClass::Quote);
    assert(quotes + Seq::<char>::empty() + Seq::<char>::empty() =~= quotes);
    crate::text::law_numbers_are_read(n, seq![], seq![], 0);
    assert(Seq::<char>::empty() + digits =~= digits);
}

/// The key of a profile is its path, but for white space around it and for capital letters of
/// ASCII, each of which counts as the small one.
pub proof fn law_profile_keys(front: Seq<char>, path: Seq<char>, back: Seq<char>, i: int)
    requires
        forall|k: int| 0 <= k < front.len() ==> crate::text::is_space(#[trigger] front[k]),
        forall|k: int| 0 <= k < back.len() ==> crate::text::is_space(#[trigger] back[k]),
        0 <= i < path.len(),
        !crate::text::is_space(path[0]),
        !crate::text::is_space(path.last()),
    ensures
        profile_key_of(front + path + back) == profile_key_of(path),
        profile_key_of(path).len() == path.len(),
        !('A' <= path[i] <= 'Z') ==> profile_key_of(path)[i] == path[i],
        'A' <= path[i] <= 'Z' ==> profile_key_of(path)[i] as int == path[i] as int + ('a' as int
            - 'A' as int),
{
    crate::text::law_trimming_cuts_the_ends(front, path, back, CharClass::Space);
    crate::text::law_trimming_cuts_the_ends(seq![], path, seq![], CharClass::Space);
    assert(Seq::<char>::empty() + path + Seq::<char>::empty() =~= path);
    crate::text::law_lowering_changes_capitals_only(path, i);
}

/// A command line asks for the port that its words ask for, and a text is a port exactly where,
/// without the quotation marks around it, it writes down a number above nought that fits.
pub proof fn law_ports_are_numbers_among_words(line: Seq<char>, text: Seq<char>, port: u16)
    ensures
        port_in_command_line(line) == port_in_words(crate::text::words(line)),
        port_number(text) == Some(port) <==> port > 0 && crate::text::parsed_u16(
            crate::text::trimmed(text, CharClass::Quote),
        ) == Some(port),
{
}

} // verus!
