//! Completion hints of the admin consoles: the command and message names
//! kept in finite state sets, searched by prefix.
use vstd::prelude::*;
use fst::{Automaton, IntoStreamer};
use crate::cmd::{GameCmd, ApiCmd, shell_split, shell_words_split};
use crate::text::{push_str, str_eq, str_chars};
use crate::msg::Registry;
use crate::msgid::{MsgId, msg_id_name, msg_id_value};

verus! {

#[verifier::external_type_specification]
#[verifier::external_body]
#[verifier::reject_recursive_types(D)]
pub struct ExFstSet<D>(fst::Set<D>);

/// Whether `a` sorts strictly before `b`, character by character by code
/// point; for strings this is the byte order of their UTF-8 encodings.
pub open spec fn str_lt(a: Seq<char>, b: Seq<char>) -> bool
    decreases a.len(),
{
    if b.len() == 0 {
        false
    } else if a.len() == 0 {
        true
    } else if a[0] != b[0] {
        (a[0] as u32) < (b[0] as u32)
    } else {
        str_lt(a.drop_first(), b.drop_first())
    }
}

/// Whether each key sorts strictly before the next.
pub open spec fn strictly_ascending(keys: Seq<Seq<char>>) -> bool {
    forall|i: int, j: int|
        0 <= i && j == i + 1 && j < keys.len() ==> #[trigger] str_lt(keys[i], keys[j])
}

/// The keys of an `fst::Set`, in ascending order, as the strings they were
/// inserted as.
pub uninterp spec fn fst_set_keys(set: fst::Set<Vec<u8>>) -> Seq<Seq<char>>;

/// Whether every key of an `fst::Set` is valid UTF-8 (a string).
pub uninterp spec fn fst_set_keys_are_strings(set: fst::Set<Vec<u8>>) -> bool;

/// The views of a list of string slices.
pub open spec fn str_views(v: Seq<&str>) -> Seq<Seq<char>> {
    v.map_values(|s: &str| s@)
}

/// The views of a list of strings.
pub open spec fn string_views(v: Seq<String>) -> Seq<Seq<char>> {
    v.map_values(|s: String| s@)
}

/// The keys of `keys` that start with `prefix`, in their order.
pub open spec fn with_prefix(keys: Seq<Seq<char>>, prefix: Seq<char>) -> Seq<Seq<char>> {
    keys.filter(|k: Seq<char>| prefix.is_prefix_of(k))
}

/// Calls `fst::Set::from_iter` on keys given in strictly ascending order.
/// The builder rejects a key only when it sorts before the previous one, and
/// writes into memory, which cannot fail; so the set is built, and holds
/// exactly these keys.
#[verifier::external_body]
fn fst_set_from_sorted(keys: &Vec<&'static str>) -> (r: fst::Set<Vec<u8>>)
    requires
        strictly_ascending(str_views(keys@)),
    ensures
        fst_set_keys(r) == str_views(keys@),
        fst_set_keys_are_strings(r),
{
    fst::Set::from_iter(keys.iter()).unwrap()
}

/// Calls `search` with the automaton `fst::automaton::Str::new(prefix)
/// .starts_with()`, then `into_stream().into_strs()`: the keys whose bytes
/// begin with the bytes of `prefix` (for UTF-8 strings, the keys that begin
/// with `prefix`), in ascending order. `into_strs` fails only on a key that
/// is not UTF-8, so it succeeds on a set whose keys are all strings.
#[verifier::external_body]
fn fst_search_prefix(set: &fst::Set<Vec<u8>>, prefix: &str) -> (r: Option<Vec<String>>)
    ensures
        fst_set_keys_are_strings(*set) ==> r is Some,
        r matches Some(v) ==> string_views(v@) == with_prefix(fst_set_keys(*set), prefix@),
{
    set.search(fst::automaton::Str::new(prefix).starts_with()).into_stream().into_strs().ok()
}

/// Calls `search` with `fst::automaton::AlwaysMatch`, then
/// `into_stream().into_strs()`: every key, in ascending order; it succeeds
/// on a set whose keys are all strings.
#[verifier::external_body]
fn fst_search_all(set: &fst::Set<Vec<u8>>) -> (r: Option<Vec<String>>)
    ensures
        fst_set_keys_are_strings(*set) ==> r is Some,
        r matches Some(v) ==> string_views(v@) == fst_set_keys(*set),
{
    set.search(fst::automaton::AlwaysMatch).into_stream().into_strs().ok()
}

/// The commands of the game console, in the order they are declared.
pub open spec fn game_cmd_names() -> Seq<Seq<char>> {
    seq![seq!['s', 'e', 'n', 'd'], seq!['l', 'o', 'g', 'o', 'u', 't'], seq!['h', 'e', 'l', 'p']]
}

/// The commands of the game console, sorted.
pub open spec fn sorted_game_cmd_names() -> Seq<Seq<char>> {
    seq![seq!['h', 'e', 'l', 'p'], seq!['l', 'o', 'g', 'o', 'u', 't'], seq!['s', 'e', 'n', 'd']]
}

/// The commands of the platform console, sorted.
pub open spec fn sorted_api_cmd_names() -> Seq<Seq<char>> {
    seq![
        seq!['c', 'r', 'e', 'a', 't', 'e'],
        seq!['h', 'e', 'l', 'p'],
        seq!['l', 'i', 's', 't'],
        seq!['u', 's', 'e'],
    ]
}

/// The names of the client messages, sorted.
pub open spec fn sorted_cs_msg_names() -> Seq<Seq<char>> {
    seq![
        seq!['C', 's', 'E', 'c', 'h', 'o'],
        seq!['C', 's', 'F', 'a', 's', 't', 'L', 'o', 'g', 'i', 'n'],
        seq!['C', 's', 'L', 'o', 'g', 'i', 'n'],
        seq!['C', 's', 'P', 'i', 'n', 'g'],
    ]
}

fn sorted_game_cmds() -> (r: Vec<&'static str>)
    ensures
        str_views(r@) == sorted_game_cmd_names(),
        strictly_ascending(str_views(r@)),
{
    let r = vec!["help", "logout", "send"];
    proof {
        reveal_strlit("help");
        reveal_strlit("logout");
        reveal_strlit("send");
        assert(r@.len() == 3);
        assert(r@[0]@ =~= seq!['h', 'e', 'l', 'p']);
        assert(r@[1]@ =~= seq!['l', 'o', 'g', 'o', 'u', 't']);
        assert(r@[2]@ =~= seq!['s', 'e', 'n', 'd']);
        assert(str_views(r@) =~= sorted_game_cmd_names());
        reveal_with_fuel(str_lt, 2);
    }
    r
}

fn sorted_api_cmds() -> (r: Vec<&'static str>)
    ensures
        str_views(r@) == sorted_api_cmd_names(),
        strictly_ascending(str_views(r@)),
{
    let r = vec!["create", "help", "list", "use"];
    proof {
        reveal_strlit("create");
        reveal_strlit("help");
        reveal_strlit("list");
        reveal_strlit("use");
        assert(r@.len() == 4);
        assert(r@[0]@ =~= seq!['c', 'r', 'e', 'a', 't', 'e']);
        assert(r@[1]@ =~= seq!['h', 'e', 'l', 'p']);
        assert(r@[2]@ =~= seq!['l', 'i', 's', 't']);
        assert(r@[3]@ =~= seq!['u', 's', 'e']);
        assert(str_views(r@) =~= sorted_api_cmd_names());
        reveal_with_fuel(str_lt, 2);
    }
    r
}

fn sorted_cs_msg_names_vec() -> (r: Vec<&'static str>)
    ensures
        str_views(r@) == sorted_cs_msg_names(),
        strictly_ascending(str_views(r@)),
{
    let r = vec!["CsEcho", "CsFastLogin", "CsLogin", "CsPing"];
    proof {
        reveal_strlit("CsEcho");
        reveal_strlit("CsFastLogin");
        reveal_strlit("CsLogin");
        reveal_strlit("CsPing");
        assert(r@.len() == 4);
        assert(r@[0]@ =~= seq!['C', 's', 'E', 'c', 'h', 'o']);
        assert(r@[1]@ =~= seq!['C', 's', 'F', 'a', 's', 't', 'L', 'o', 'g', 'i', 'n']);
        assert(r@[2]@ =~= seq!['C', 's', 'L', 'o', 'g', 'i', 'n']);
        assert(r@[3]@ =~= seq!['C', 's', 'P', 'i', 'n', 'g']);
        assert(str_views(r@) =~= sorted_cs_msg_names());
        let n = sorted_cs_msg_names();
        assert(n[0].drop_first() =~= seq!['s', 'E', 'c', 'h', 'o']);
        assert(n[1].drop_first() =~= seq!['s', 'F', 'a', 's', 't', 'L', 'o', 'g', 'i', 'n']);
        assert(n[2].drop_first() =~= seq!['s', 'L', 'o', 'g', 'i', 'n']);
        assert(n[3].drop_first() =~= seq!['s', 'P', 'i', 'n', 'g']);
        assert(n[0].drop_first().drop_first() =~= seq!['E', 'c', 'h', 'o']);
        assert(n[1].drop_first().drop_first() =~= seq!['F', 'a', 's', 't', 'L', 'o', 'g', 'i', 'n']);
        assert(n[2].drop_first().drop_first() =~= seq!['L', 'o', 'g', 'i', 'n']);
        assert(n[3].drop_first().drop_first() =~= seq!['P', 'i', 'n', 'g']);
        reveal_with_fuel(str_lt, 3);
    }
    r
}

/// Whether `i` is the position of the first `':'` of `s`.
pub open spec fn is_first_colon(s: Seq<char>, i: int) -> bool {
    &&& 0 <= i < s.len()
    &&& s[i] == ':'
    &&& forall|k: int| 0 <= k < i ==> s[k] != ':'
}

/// What follows the first `':'` of `s`, if there is one.
pub open spec fn after_first_colon(s: Seq<char>) -> Option<Seq<char>> {
    if exists|i: int| is_first_colon(s, i) {
        let i = choose|i: int| is_first_colon(s, i);
        Some(s.subrange(i + 1, s.len() as int))
    } else {
        None
    }
}

/// The payload hint cut from the JSON of a default message, such as
/// `{"CsEcho":{"content":""}}`: what follows the first `':'`, without its
/// last character (a closing brace). There is none when the JSON has no
/// `':'`, or nothing after it, or ends in a character of more than one byte.
pub open spec fn payload_hint_of(json: Seq<char>) -> Option<Seq<char>> {
    match after_first_colon(json) {
        Some(rest) => if rest.len() > 0 && (rest.last() as u32) < 128 {
            Some(rest.drop_last())
        } else {
            None
        },
        None => None,
    }
}

proof fn lemma_first_colon_unique(s: Seq<char>, i: int, j: int)
    requires
        is_first_colon(s, i),
        is_first_colon(s, j),
    ensures
        i == j,
{
    if i < j {
        assert(s[i] != ':');
    } else if j < i {
        assert(s[j] != ':');
    }
}

/// The characters after the first `':'` of `s`, if it has one.
fn split_after_colon(s: &str) -> (r: Option<Vec<char>>)
    ensures
        match r {
            Some(v) => after_first_colon(s@) == Some(v@),
            None => after_first_colon(s@) is None,
        },
{
    let cs = str_chars(s);
    let mut i: usize = 0;
    while i < cs.len()
        invariant
            cs@ == s@,
            i <= cs@.len(),
            forall|k: int| 0 <= k < i ==> cs@[k] != ':',
        decreases cs@.len() - i,
    {
        if cs[i] == ':' {
            let mut rest: Vec<char> = Vec::new();
            let mut j: usize = i + 1;
            while j < cs.len()
                invariant
                    cs@ == s@,
                    i < j <= cs@.len(),
                    rest@ == cs@.subrange(i + 1, j as int),
                decreases cs@.len() - j,
            {
                rest.push(cs[j]);
                assert(cs@.subrange(i + 1, j + 1) =~= cs@.subrange(i + 1, j as int).push(cs@[j as int]));
                j = j + 1;
            }
            proof {
                assert(is_first_colon(s@, i as int));
                let c = choose|c: int| is_first_colon(s@, c);
                lemma_first_colon_unique(s@, i as int, c);
            }
            return Some(rest);
        }
        i = i + 1;
    }
    proof {
        assert forall|c: int| !is_first_colon(s@, c) by {
            if is_first_colon(s@, c) {
                assert(cs@[c] == ':');
            }
        }
    }
    None
}

/// The payload hint of the JSON of a default message.
pub fn payload_hint(json: &str) -> (r: Option<String>)
    ensures
        match r {
            Some(p) => payload_hint_of(json@) == Some(p@),
            None => payload_hint_of(json@) is None,
        },
{
    match split_after_colon(json) {
        Some(rest) => {
            let n = rest.len();
            if n > 0 && (rest[n - 1] as u32) < 128 {
                let mut out = String::new();
                let mut k: usize = 0;
                while k < n - 1
                    invariant
                        n == rest@.len(),
                        n > 0,
                        k <= n - 1,
                        out@ == rest@.take(k as int),
                    decreases n - 1 - k,
                {
                    crate::text::string_push(&mut out, rest[k]);
                    assert(rest@.take(k + 1) =~= rest@.take(k as int).push(rest@[k as int]));
                    k = k + 1;
                }
                assert(rest@.take((n - 1) as int) =~= rest@.drop_last());
                Some(out)
            } else {
                None
            }
        },
        None => None,
    }
}

/// The first entry of `table` named `name`.
pub open spec fn lookup(table: Seq<(Seq<char>, Seq<char>)>, name: Seq<char>) -> Option<Seq<char>>
    decreases table.len(),
{
    if table.len() == 0 {
        None
    } else if table[0].0 == name {
        Some(table[0].1)
    } else {
        lookup(table.drop_first(), name)
    }
}

/// The view of a table of string pairs.
pub open spec fn pair_views(v: Seq<(String, String)>) -> Seq<(Seq<char>, Seq<char>)> {
    v.map_values(|e: (String, String)| (e.0@, e.1@))
}

/// The payload table made from the JSON of each message kind's default
/// value, if every JSON has a payload hint.
pub open spec fn payload_table_of(defaults: Seq<(Seq<char>, Seq<char>)>) -> Option<Seq<(Seq<char>, Seq<char>)>> {
    if forall|i: int| 0 <= i < defaults.len() ==> (#[trigger] payload_hint_of(defaults[i].1)) is Some {
        Some(defaults.map_values(|e: (Seq<char>, Seq<char>)| (e.0, payload_hint_of(e.1).unwrap())))
    } else {
        None
    }
}

/// Whether every client message has an entry in `table`.
pub open spec fn covers_cs_msgs(table: Seq<(Seq<char>, Seq<char>)>) -> bool {
    forall|name: Seq<char>| #[trigger] sorted_cs_msg_names().contains(name) ==> lookup(table, name) is Some
}

fn find_entry<'a>(table: &'a Vec<(String, String)>, name: &str) -> (r: Option<&'a String>)
    ensures
        match r {
            Some(p) => lookup(pair_views(table@), name@) == Some(p@),
            None => lookup(pair_views(table@), name@) is None,
        },
{
    let mut i: usize = 0;
    assert(pair_views(table@).skip(0) =~= pair_views(table@));
    while i < table.len()
        invariant
            i <= table@.len(),
            lookup(pair_views(table@), name@) == lookup(pair_views(table@).skip(i as int), name@),
        decreases table@.len() - i,
    {
        let ghost rest = pair_views(table@).skip(i as int);
        assert(rest.drop_first() =~= pair_views(table@).skip(i + 1));
        if str_eq(table[i].0.as_str(), name) {
            return Some(&table[i].1);
        }
        i = i + 1;
    }
    assert(pair_views(table@).skip(i as int).len() == 0);
    None
}

/// The completion hints of the consoles: the command names and message
/// names as sets searched by prefix, and a payload hint per message kind.
pub struct CmdHints {
    game_cmds: fst::Set<Vec<u8>>,
    api_cmds: fst::Set<Vec<u8>>,
    cs_names: fst::Set<Vec<u8>>,
    payloads: Vec<(String, String)>,
}

impl CmdHints {
    #[verifier::type_invariant]
    spec fn well_formed(&self) -> bool {
        &&& fst_set_keys(self.game_cmds) == sorted_game_cmd_names()
        &&& fst_set_keys(self.api_cmds) == sorted_api_cmd_names()
        &&& fst_set_keys(self.cs_names) == sorted_cs_msg_names()
        &&& fst_set_keys_are_strings(self.game_cmds)
        &&& fst_set_keys_are_strings(self.api_cmds)
        &&& fst_set_keys_are_strings(self.cs_names)
        &&& covers_cs_msgs(pair_views(self.payloads@))
    }

    /// The payload hint of each message kind, by name.
    pub closed spec fn payload_table(&self) -> Seq<(Seq<char>, Seq<char>)> {
        pair_views(self.payloads@)
    }

    /// The hints, from the JSON of the default value of each client message
    /// kind, as `(name, json)`; none when a JSON has no payload hint or a
    /// kind has no entry.
    pub fn new(defaults: Vec<(String, String)>) -> (r: Option<CmdHints>)
        ensures
            match payload_table_of(pair_views(defaults@)) {
                Some(t) => if covers_cs_msgs(t) {
                    r matches Some(h) && h.payload_table() == t
                } else {
                    r is None
                },
                None => r is None,
            },
    {
        let mut payloads: Vec<(String, String)> = Vec::new();
        let mut i: usize = 0;
        while i < defaults.len()
            invariant
                i <= defaults@.len(),
                payloads@.len() == i,
                forall|k: int| 0 <= k < i ==> (#[trigger] payload_hint_of(defaults@[k].1@)) is Some,
                forall|k: int| 0 <= k < i ==> (#[trigger] payloads@[k]).0@ == defaults@[k].0@ && payloads@[k].1@ == payload_hint_of(defaults@[k].1@).unwrap(),
            decreases defaults@.len() - i,
        {
            match payload_hint(defaults[i].1.as_str()) {
                Some(p) => {
                    payloads.push((defaults[i].0.clone(), p));
                },
                None => {
                    proof {
                        assert(!(forall|k: int| 0 <= k < defaults@.len() ==> (#[trigger] payload_hint_of(pair_views(defaults@)[k].1)) is Some)) by {
                            assert(pair_views(defaults@)[i as int].1 == defaults@[i as int].1@);
                        }
                    }
                    return None;
                },
            }
            i = i + 1;
        }
        proof {
            let t = pair_views(defaults@).map_values(|e: (Seq<char>, Seq<char>)| (e.0, payload_hint_of(e.1).unwrap()));
            assert(pair_views(payloads@) =~= t);
            assert(payload_table_of(pair_views(defaults@)) == Some(t));
            assert(payload_table_of(pair_views(defaults@)) == Some(pair_views(payloads@)));
        }
        let names = sorted_cs_msg_names_vec();
        let mut j: usize = 0;
        while j < names.len()
            invariant
                j <= names@.len(),
                str_views(names@) == sorted_cs_msg_names(),
                payload_table_of(pair_views(defaults@)) == Some(pair_views(payloads@)),
                forall|k: int| 0 <= k < j ==> lookup(pair_views(payloads@), #[trigger] sorted_cs_msg_names()[k]) is Some,
            decreases names@.len() - j,
        {
            if find_entry(&payloads, names[j]).is_none() {
                proof {
                    assert(str_views(names@)[j as int] == names@[j as int]@);
                    assert(sorted_cs_msg_names().contains(sorted_cs_msg_names()[j as int]));
                    assert(!covers_cs_msgs(pair_views(payloads@)));
                }
                return None;
            }
            j = j + 1;
        }
        proof {
            assert forall|name: Seq<char>| #[trigger] sorted_cs_msg_names().contains(name) implies lookup(pair_views(payloads@), name) is Some by {
                let k = choose|k: int| 0 <= k < sorted_cs_msg_names().len() && sorted_cs_msg_names()[k] == name;
            }
        }
        let game = sorted_game_cmds();
        let api = sorted_api_cmds();
        Some(CmdHints {
            game_cmds: fst_set_from_sorted(&game),
            api_cmds: fst_set_from_sorted(&api),
            cs_names: fst_set_from_sorted(&names),
            payloads,
        })
    }
}

impl ApiCmd {
    /// The platform commands that start with what was typed.
    pub fn auto_complete(p: String, hints: &CmdHints) -> (r: Vec<String>)
        ensures
            string_views(r@) == with_prefix(sorted_api_cmd_names(), p@),
    {
        proof {
            use_type_invariant(hints);
        }
        match fst_search_prefix(&hints.api_cmds, p.as_str()) {
            Some(v) => v,
            None => vec![p],
        }
    }
}

/// The word `send`.
pub open spec fn send_word() -> Seq<char> {
    seq!['s', 'e', 'n', 'd']
}

/// `send` and a space.
pub open spec fn send_prefix() -> Seq<char> {
    seq!['s', 'e', 'n', 'd', ' ']
}

/// The words of a console line, or none when they cannot be split.
pub open spec fn line_words(p: Seq<char>) -> Seq<Seq<char>> {
    match shell_words_split(p) {
        Some(w) => w,
        None => Seq::empty(),
    }
}

/// Whether a game console line can be completed: it is empty, or it
/// splits into at least one word.
pub open spec fn completable(p: Seq<char>) -> bool {
    p.len() == 0 || (shell_words_split(p) matches Some(w) && w.len() > 0)
}

/// The completions of a game console line `p` whose words are `words`:
/// - nothing typed: every command;
/// - one word still being typed: the commands it begins;
/// - after `send`: the message names that the second word begins (all of
///   them when there is no second word or more than two); one such name
///   completes to the whole command with its payload hint, several to
///   `send` and the name, none leaves the line as it is;
/// - anything else is left as it is.
pub open spec fn game_completions(
    p: Seq<char>,
    words: Seq<Seq<char>>,
    table: Seq<(Seq<char>, Seq<char>)>,
) -> Seq<Seq<char>> {
    if p.len() == 0 {
        game_cmd_names()
    } else if words.len() == 1 && p.last() != ' ' {
        with_prefix(sorted_game_cmd_names(), words[0])
    } else if words[0] == send_word() {
        let names = if words.len() == 2 {
            with_prefix(sorted_cs_msg_names(), words[1])
        } else {
            sorted_cs_msg_names()
        };
        if names.len() == 0 {
            seq![p]
        } else if names.len() == 1 {
            seq![send_prefix() + names[0] + seq![' '] + lookup(table, names[0]).unwrap()]
        } else {
            names.map_values(|n: Seq<char>| send_prefix() + n)
        }
    } else {
        seq![p]
    }
}

fn single(p: String) -> (r: Vec<String>)
    ensures
        string_views(r@) == seq![p@],
{
    let r = vec![p];
    assert(string_views(r@) =~= seq![p@]);
    r
}

fn game_cmd_strings() -> (r: Vec<String>)
    ensures
        string_views(r@) == game_cmd_names(),
{
    let r = vec!["send".to_owned(), "logout".to_owned(), "help".to_owned()];
    proof {
        reveal_strlit("send");
        reveal_strlit("logout");
        reveal_strlit("help");
        assert(r@.len() == 3);
        assert(r@[0]@ =~= seq!['s', 'e', 'n', 'd']);
        assert(r@[1]@ =~= seq!['l', 'o', 'g', 'o', 'u', 't']);
        assert(r@[2]@ =~= seq!['h', 'e', 'l', 'p']);
        assert(string_views(r@) =~= game_cmd_names());
    }
    r
}

impl GameCmd {
    /// The completions of the game console line `p` (see
    /// `game_completions`); the line must be empty or split into words.
    pub fn auto_complete(p: String, hints: &CmdHints) -> (r: Vec<String>)
        requires
            completable(p@),
        ensures
            string_views(r@) == game_completions(p@, line_words(p@), hints.payload_table()),
    {
        proof {
            use_type_invariant(hints);
        }
        let pc = str_chars(p.as_str());
        if pc.len() == 0 {
            return game_cmd_strings();
        }
        let sw = match shell_split(p.as_str()) {
            Some(w) => w,
            None => return vec![p],
        };
        proof {
            assert(string_views(sw@) == line_words(p@));
            assert(string_views(sw@)[0] == sw@[0]@);
            assert(p@.last() == pc@[pc@.len() - 1]);
        }
        if sw.len() == 1 && pc[pc.len() - 1] != ' ' {
            return match fst_search_prefix(&hints.game_cmds, sw[0].as_str()) {
                Some(v) => v,
                None => vec![p],
            };
        }
        let is_send = str_eq(sw[0].as_str(), "send");
        proof {
            reveal_strlit("send");
            assert("send"@ =~= send_word());
        }
        if !is_send {
            return single(p);
        }
        assert(sw@[0]@ == send_word());
        let names = if sw.len() == 2 {
            proof {
                assert(string_views(sw@)[1] == sw@[1]@);
            }
            match fst_search_prefix(&hints.cs_names, sw[1].as_str()) {
                Some(v) => v,
                None => Vec::new(),
            }
        } else {
            match fst_search_all(&hints.cs_names) {
                Some(v) => v,
                None => Vec::new(),
            }
        };
        let ghost all = sorted_cs_msg_names();
        let ghost expect = if sw@.len() == 2 {
            with_prefix(all, sw@[1]@)
        } else {
            all
        };
        assert(string_views(names@) == expect);
        if names.len() == 0 {
            return single(p);
        } else if names.len() == 1 {
            proof {
                assert(string_views(names@)[0] == names@[0]@);
                if sw@.len() == 2 {
                    broadcast use vstd::seq_lib::group_filter_ensures;
                    let pred = |k: Seq<char>| sw@[1]@.is_prefix_of(k);
                    assert(all.filter(pred).contains(expect[0]));
                    all.lemma_filter_contains_rev(pred, expect[0]);
                }
                assert(all.contains(names@[0]@));
            }
            let payload = match find_entry(&hints.payloads, names[0].as_str()) {
                Some(x) => x,
                None => return vec![p],
            };
            let mut line = String::new();
            push_str(&mut line, "send ");
            push_str(&mut line, names[0].as_str());
            push_str(&mut line, " ");
            push_str(&mut line, payload.as_str());
            proof {
                reveal_strlit("send ");
                reveal_strlit(" ");
                assert("send "@ =~= send_prefix());
                assert(" "@ =~= seq![' ']);
                assert(names@[0]@ == expect[0]);
                assert(payload@ == lookup(hints.payload_table(), expect[0]).unwrap());
                let x = seq![send_prefix() + expect[0] + seq![' '] + lookup(hints.payload_table(), expect[0]).unwrap()];
                assert(line@ == x[0]);
                assert(string_views(seq![line]) =~= x);
            }
            return vec![line];
        } else {
            let mut out: Vec<String> = Vec::new();
            let mut k: usize = 0;
            while k < names.len()
                invariant
                    k <= names@.len(),
                    out@.len() == k,
                    forall|j: int| 0 <= j < k ==> (#[trigger] out@[j])@ == send_prefix() + names@[j]@,
                decreases names@.len() - k,
            {
                let mut line = String::new();
                push_str(&mut line, "send ");
                push_str(&mut line, names[k].as_str());
                proof {
                    reveal_strlit("send ");
                }
                out.push(line);
                k = k + 1;
            }
            proof {
                assert forall|j: int| 0 <= j < names@.len() implies string_views(names@)[j] == names@[j]@ by {}
                assert(string_views(out@) =~= expect.map_values(|n: Seq<char>| send_prefix() + n));
            }
            return out;
        }
    }

    /// The completions of `p`, or none when it is neither empty nor splits
    /// into words.
    pub fn try_auto_complete(p: String, hints: &CmdHints) -> (r: Option<Vec<String>>)
        ensures
            r is Some <==> completable(p@),
            r matches Some(v) ==> string_views(v@) == game_completions(p@, line_words(p@), hints.payload_table()),
    {
        let pc = str_chars(p.as_str());
        if pc.len() > 0 {
            match shell_split(p.as_str()) {
                Some(w) => {
                    if w.len() == 0 {
                        return None;
                    }
                },
                None => return None,
            }
        }
        Some(GameCmd::auto_complete(p, hints))
    }
}

/// The message kinds of the registry, in the order they are declared (the
/// reserved kind is not one of them).
pub open spec fn registry_kinds() -> Seq<MsgId> {
    seq![
        MsgId::CsPing,
        MsgId::ScPing,
        MsgId::CsLogin,
        MsgId::ScLogin,
        MsgId::CsFastLogin,
        MsgId::ScFastLogin,
        MsgId::CsEcho,
        MsgId::ScEcho,
    ]
}

impl Registry {
    /// The names of the registered message kinds.
    pub fn names() -> (r: Vec<&'static str>)
        ensures
            str_views(r@) == registry_kinds().map_values(|k: MsgId| msg_id_name(k)),
    {
        let kinds = vec![
            MsgId::CsPing,
            MsgId::ScPing,
            MsgId::CsLogin,
            MsgId::ScLogin,
            MsgId::CsFastLogin,
            MsgId::ScFastLogin,
            MsgId::CsEcho,
            MsgId::ScEcho,
        ];
        assert(kinds@ =~= registry_kinds());
        let mut r: Vec<&'static str> = Vec::new();
        let mut i: usize = 0;
        while i < kinds.len()
            invariant
                i <= kinds@.len(),
                kinds@ == registry_kinds(),
                r@.len() == i,
                forall|j: int| 0 <= j < i ==> (#[trigger] r@[j])@ == msg_id_name(kinds@[j]),
            decreases kinds@.len() - i,
        {
            r.push(kinds[i].as_str_name());
            i = i + 1;
        }
        assert(str_views(r@) =~= registry_kinds().map_values(|k: MsgId| msg_id_name(k)));
        r
    }

    /// The identifiers of the registered message kinds.
    pub fn ids() -> (r: Vec<i32>)
        ensures
            r@ == registry_kinds().map_values(|k: MsgId| msg_id_value(k)),
    {
        let r = vec![1, 2, 101, 102, 103, 104, 201, 202];
        assert(r@ =~= registry_kinds().map_values(|k: MsgId| msg_id_value(k)));
        r
    }
}

/// `s` without the closing braces it ends with.
pub open spec fn trim_end_braces(s: Seq<char>) -> Seq<char>
    decreases s.len(),
{
    if s.len() > 0 && s.last() == '}' {
        trim_end_braces(s.drop_last())
    } else {
        s
    }
}

/// The payload shown beside a message name: what follows the first `':'`
/// of the message's pretty JSON, without the closing braces it ends with.
pub open spec fn shown_payload_of(json: Seq<char>) -> Option<Seq<char>> {
    match after_first_colon(json) {
        Some(rest) => Some(trim_end_braces(rest)),
        None => None,
    }
}

/// The payload shown beside a message name.
pub fn shown_payload(json: &str) -> (r: Option<String>)
    ensures
        match r {
            Some(p) => shown_payload_of(json@) == Some(p@),
            None => shown_payload_of(json@) is None,
        },
{
    let rest = match split_after_colon(json) {
        Some(v) => v,
        None => return None,
    };
    let mut n: usize = rest.len();
    assert(rest@.take(n as int) =~= rest@);
    while n > 0 && rest[n - 1] == '}'
        invariant
            n <= rest@.len(),
            trim_end_braces(rest@.take(n as int)) == trim_end_braces(rest@),
        decreases n,
    {
        assert(rest@.take(n as int).drop_last() =~= rest@.take(n - 1));
        n = n - 1;
    }
    let mut out = String::new();
    let mut k: usize = 0;
    while k < n
        invariant
            n <= rest@.len(),
            k <= n,
            out@ == rest@.take(k as int),
        decreases n - k,
    {
        crate::text::string_push(&mut out, rest[k]);
        assert(rest@.take(k + 1) =~= rest@.take(k as int).push(rest@[k as int]));
        k = k + 1;
    }
    Some(out)
}

/// A message name and the payload shown beside it.
pub struct FrontNamePayloadPair {
    pub name: &'static str,
    pub payload: String,
}

/// The hints as shown to the front end.
pub struct FrontHint<'a> {
    pub pbnames: &'a [&'static str],
    pub pbids: &'a [i32],
    pub pairs: &'a [FrontNamePayloadPair],
}

/// The hints of the desktop tool: the pretty JSON of each message kind's
/// default value by name, and the payload shown beside each name.
pub struct Hint {
    pub name2payload: Vec<(&'static str, String)>,
    pub pair: Vec<FrontNamePayloadPair>,
}

impl Hint {
    /// The hints, from the pretty JSON of each kind's default value; none
    /// when a JSON has no `':'`.
    pub fn new(entries: Vec<(&'static str, String)>) -> (r: Option<Hint>)
        ensures
            r is Some <==> forall|i: int| 0 <= i < entries@.len() ==> (#[trigger] shown_payload_of(entries@[i].1@)) is Some,
            r matches Some(h) ==> {
                &&& h.name2payload@ == entries@
                &&& h.pair@.len() == entries@.len()
                &&& forall|i: int| 0 <= i < entries@.len() ==> {
                    &&& (#[trigger] h.pair@[i]).name == entries@[i].0
                    &&& Some(h.pair@[i].payload@) == shown_payload_of(entries@[i].1@)
                }
            },
    {
        let mut pair: Vec<FrontNamePayloadPair> = Vec::new();
        let mut i: usize = 0;
        while i < entries.len()
            invariant
                i <= entries@.len(),
                pair@.len() == i,
                forall|j: int| 0 <= j < i ==> (#[trigger] shown_payload_of(entries@[j].1@)) is Some,
                forall|j: int| 0 <= j < i ==> {
                    &&& (#[trigger] pair@[j]).name == entries@[j].0
                    &&& Some(pair@[j].payload@) == shown_payload_of(entries@[j].1@)
                },
            decreases entries@.len() - i,
        {
            match shown_payload(entries[i].1.as_str()) {
                Some(p) => pair.push(FrontNamePayloadPair { name: entries[i].0, payload: p }),
                None => return None,
            }
            i = i + 1;
        }
        Some(Hint { name2payload: entries, pair })
    }

    /// The hints as shown to the front end, beside the registered names and
    /// identifiers.
    pub fn to_front<'a>(&'a self, pbnames: &'a [&'static str], pbids: &'a [i32]) -> (r: FrontHint<'a>)
        ensures
            r.pbnames@ == pbnames@,
            r.pbids@ == pbids@,
            r.pairs@ == self.pair@,
    {
        FrontHint { pbnames, pbids, pairs: self.pair.as_slice() }
    }
}

/// Why a hint was not found.
#[derive(Debug, PartialEq, Eq)]
pub enum PbHintError {
    /// No hint is recorded under this name.
    NotRecord(String),
}

impl PbHintError {
    /// The text of the error.
    pub fn message(&self) -> (r: String)
        ensures
            match self {
                PbHintError::NotRecord(k) => r@ == seq!['n', 'o', ' ', 'h', 'i', 'n', 't', ' ', 'f', 'o', 'u', 'n', 'd', ' ', 'f', 'o', 'r', ' '] + k@,
            },
    {
        match self {
            PbHintError::NotRecord(k) => {
                let mut s = String::new();
                push_str(&mut s, "no hint found for ");
                push_str(&mut s, k.as_str());
                proof {
                    reveal_strlit("no hint found for ");
                }
                s
            },
        }
    }
}

/// The hint of the last entry named `key` (a later entry replaces an
/// earlier one of the same name).
pub open spec fn lookup_last(table: Seq<(Seq<char>, Seq<char>)>, key: Seq<char>) -> Option<Seq<char>>
    decreases table.len(),
{
    if table.len() == 0 {
        None
    } else if table.last().0 == key {
        Some(table.last().1)
    } else {
        lookup_last(table.drop_last(), key)
    }
}

/// Whether a message kind is offered to the user: the login requests are
/// not.
pub open spec fn offered(name: Seq<char>) -> bool {
    name != seq!['C', 's', 'L', 'o', 'g', 'i', 'n']
        && name != seq!['C', 's', 'F', 'a', 's', 't', 'L', 'o', 'g', 'i', 'n']
}

/// The views of the hint entries.
pub open spec fn entry_views(v: Seq<(&'static str, String)>) -> Seq<(Seq<char>, Seq<char>)> {
    v.map_values(|e: (&'static str, String)| (e.0@, e.1@))
}

/// The message hints of the client manager: the pretty JSON of each client
/// message kind's default value by name, and the kinds offered to the user.
pub struct PbHintState {
    hint: Vec<(&'static str, String)>,
    options: Vec<&'static str>,
}

impl PbHintState {
    /// The recorded hints.
    pub closed spec fn hints(&self) -> Seq<(Seq<char>, Seq<char>)> {
        entry_views(self.hint@)
    }

    /// The offered kinds.
    pub closed spec fn offered_names(&self) -> Seq<Seq<char>> {
        str_views(self.options@)
    }

    /// The state from the pretty JSON of each kind's default value, by name,
    /// in the order the kinds are declared.
    pub fn new(entries: Vec<(&'static str, String)>) -> (r: PbHintState)
        ensures
            r.hints() == entry_views(entries@),
            r.offered_names() == str_views(entries@.map_values(|e: (&'static str, String)| e.0)).filter(|n: Seq<char>| offered(n)),
    {
        let mut options: Vec<&'static str> = Vec::new();
        let ghost names = str_views(entries@.map_values(|e: (&'static str, String)| e.0));
        let mut i: usize = 0;
        proof {
            reveal_strlit("CsLogin");
            reveal_strlit("CsFastLogin");
        }
        while i < entries.len()
            invariant
                i <= entries@.len(),
                names == str_views(entries@.map_values(|e: (&'static str, String)| e.0)),
                str_views(options@) == names.take(i as int).filter(|n: Seq<char>| offered(n)),
                "CsLogin"@ == seq!['C', 's', 'L', 'o', 'g', 'i', 'n'],
                "CsFastLogin"@ == seq!['C', 's', 'F', 'a', 's', 't', 'L', 'o', 'g', 'i', 'n'],
            decreases entries@.len() - i,
        {
            let name = entries[i].0;
            let keep = !str_eq(name, "CsLogin") && !str_eq(name, "CsFastLogin");
            proof {
                assert(names.take(i + 1) =~= names.take(i as int).push(names[i as int]));
                assert(names[i as int] == name@);
                names.take(i as int).lemma_filter_push(names[i as int], |n: Seq<char>| offered(n));
            }
            if keep {
                options.push(name);
                assert(str_views(options@) =~= str_views(options@.drop_last()).push(name@));
            }
            i = i + 1;
        }
        assert(names.take(entries@.len() as int) =~= names);
        PbHintState { hint: entries, options }
    }

    /// The kinds offered to the user.
    pub fn get_options(&self) -> (r: Vec<&'static str>)
        ensures
            str_views(r@) == self.offered_names(),
    {
        self.options.clone()
    }

    /// The hint recorded under `key`.
    pub fn try_hint(&self, key: &str) -> (r: Result<String, PbHintError>)
        ensures
            match lookup_last(self.hints(), key@) {
                Some(h) => r matches Ok(s) && s@ == h,
                None => r matches Err(PbHintError::NotRecord(k)) && k@ == key@,
            },
    {
        let mut i: usize = self.hint.len();
        assert(self.hints().take(i as int) =~= self.hints());
        while i > 0
            invariant
                i <= self.hint@.len(),
                lookup_last(self.hints(), key@) == lookup_last(self.hints().take(i as int), key@),
            decreases i,
        {
            assert(self.hints().take(i as int).drop_last() =~= self.hints().take(i - 1));
            if str_eq(self.hint[i - 1].0, key) {
                return Ok(self.hint[i - 1].1.clone());
            }
            i = i - 1;
        }
        Err(PbHintError::NotRecord(key.to_owned()))
    }
}

/// Every completion of a word is one of the keys, and begins with the word.
pub proof fn lemma_completions_extend_word(keys: Seq<Seq<char>>, word: Seq<char>)
    ensures
        forall|i: int| 0 <= i < with_prefix(keys, word).len() ==> {
            &&& word.is_prefix_of(#[trigger] with_prefix(keys, word)[i])
            &&& keys.contains(with_prefix(keys, word)[i])
        },
{
    broadcast use vstd::seq_lib::group_filter_ensures;
    let pred = |k: Seq<char>| word.is_prefix_of(k);
    assert forall|i: int| 0 <= i < with_prefix(keys, word).len() implies {
        &&& word.is_prefix_of(#[trigger] with_prefix(keys, word)[i])
        &&& keys.contains(with_prefix(keys, word)[i])
    } by {
        assert(keys.filter(pred).contains(keys.filter(pred)[i]));
        keys.lemma_filter_contains_rev(pred, keys.filter(pred)[i]);
    }
}

/// While the first word of a game console line is being typed, every
/// completion is a command that begins with it.
pub proof fn lemma_game_completions_extend_command(
    p: Seq<char>,
    words: Seq<Seq<char>>,
    table: Seq<(Seq<char>, Seq<char>)>,
)
    requires
        p.len() > 0,
        words.len() == 1,
        p.last() != ' ',
    ensures
        forall|i: int| 0 <= i < game_completions(p, words, table).len() ==> {
            &&& words[0].is_prefix_of(#[trigger] game_completions(p, words, table)[i])
            &&& sorted_game_cmd_names().contains(game_completions(p, words, table)[i])
        },
{
    lemma_completions_extend_word(sorted_game_cmd_names(), words[0]);
}

/// The payload hint of the JSON of a message, `{"<name>":<payload>}`, is the
/// payload, whenever the name has no `':'`.
pub proof fn lemma_payload_hint_of_message_json(name: Seq<char>, payload: Seq<char>)
    requires
        !name.contains(':'),
    ensures
        payload_hint_of(seq!['{', '"'] + name + seq!['"', ':'] + payload + seq!['}']) == Some(payload),
{
    let json = seq!['{', '"'] + name + seq!['"', ':'] + payload + seq!['}'];
    let i: int = name.len() as int + 3;
    assert(json[i] == ':');
    assert forall|k: int| 0 <= k < i implies json[k] != ':' by {
        if 2 <= k < name.len() + 2 {
            assert(json[k] == name[k - 2]);
        }
    }
    assert(is_first_colon(json, i));
    let c = choose|c: int| is_first_colon(json, c);
    lemma_first_colon_unique(json, i, c);
    let rest = json.subrange(i + 1, json.len() as int);
    assert(rest =~= payload + seq!['}']);
    assert(rest.drop_last() =~= payload);
}


/// Once a `send` line has a name and at least one more word, every client
/// message name is offered after `send `, in sorted order, whatever the
/// other words are: the name typed filters nothing and no payload is
/// filled in.
pub proof fn lemma_send_with_payload_offers_every_name(
    p: Seq<char>,
    words: Seq<Seq<char>>,
    table: Seq<(Seq<char>, Seq<char>)>,
)
    requires
        p.len() > 0,
        words.len() >= 3,
        words[0] == send_word(),
    ensures
        game_completions(p, words, table) == seq![
            send_prefix() + seq!['C', 's', 'E', 'c', 'h', 'o'],
            send_prefix() + seq!['C', 's', 'F', 'a', 's', 't', 'L', 'o', 'g', 'i', 'n'],
            send_prefix() + seq!['C', 's', 'L', 'o', 'g', 'i', 'n'],
            send_prefix() + seq!['C', 's', 'P', 'i', 'n', 'g'],
        ],
{
    let r = game_completions(p, words, table);
    assert(r =~= seq![
        send_prefix() + seq!['C', 's', 'E', 'c', 'h', 'o'],
        send_prefix() + seq!['C', 's', 'F', 'a', 's', 't', 'L', 'o', 'g', 'i', 'n'],
        send_prefix() + seq!['C', 's', 'L', 'o', 'g', 'i', 'n'],
        send_prefix() + seq!['C', 's', 'P', 'i', 'n', 'g'],
    ]);
}

} // verus!
