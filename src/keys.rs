use vstd::prelude::*;

verus! {

/// Modifier bits of a key or button event's state field.
pub const SHIFT_MASK: u32 = 1;
pub const LOCK_MASK: u32 = 2;
pub const CONTROL_MASK: u32 = 4;
pub const MOD1_MASK: u32 = 8;
pub const MOD2_MASK: u32 = 16;
pub const MOD4_MASK: u32 = 64;

/// Control, shift, alt and super: the modifiers a binding is compared on.
/// Caps lock and num lock are left out so that they never break a binding.
pub const RELEVANT_MODIFIERS: u32 = 77;

/// Keysyms of the named keys.
pub const KEYSYM_SPACE: u64 = 0x20;
pub const KEYSYM_TAB: u64 = 0xff09;
pub const KEYSYM_RETURN: u64 = 0xff0d;
pub const KEYSYM_LEFT: u64 = 0xff51;
pub const KEYSYM_UP: u64 = 0xff52;
pub const KEYSYM_RIGHT: u64 = 0xff53;
pub const KEYSYM_DOWN: u64 = 0xff54;

/// What `str::trim` leaves of a string.
pub uninterp spec fn trim_of(s: Seq<char>) -> Seq<char>;

/// What `str::to_uppercase` makes of a string.
pub uninterp spec fn upper_of(s: Seq<char>) -> Seq<char>;

/// Relies on `str::trim`: the string without leading and trailing whitespace.
#[verifier::external_body]
fn trimmed(s: &str) -> (r: &str)
    ensures
        r@ == trim_of(s@),
{
    s.trim()
}

/// Relies on `str::to_uppercase`: the upper-case form of each character.
#[verifier::external_body]
fn uppercase(s: &str) -> (r: String)
    ensures
        r@ == upper_of(s@),
{
    s.to_uppercase()
}

/// A token as the resolver compares it: trimmed, then case-folded.
pub open spec fn fold_token(s: Seq<char>) -> Seq<char> {
    upper_of(trim_of(s))
}

/// The pieces of `s` between occurrences of `sep` (one more than there are separators).
pub open spec fn split_on(s: Seq<char>, sep: char) -> Seq<Seq<char>>
    decreases s.len(),
{
    if s.len() == 0 {
        seq![Seq::<char>::empty()]
    } else {
        let rest = split_on(s.drop_last(), sep);
        if s.last() == sep {
            rest.push(Seq::<char>::empty())
        } else {
            rest.update(rest.len() - 1, rest.last().push(s.last()))
        }
    }
}

/// The modifier bit that a folded token names, if it names one.
pub open spec fn modifier_bit(tok: Seq<char>) -> Option<u32> {
    if tok == "CTRL"@ || tok == "CONTROL"@ {
        Some(CONTROL_MASK)
    } else if tok == "SHIFT"@ {
        Some(SHIFT_MASK)
    } else if tok == "ALT"@ {
        Some(MOD1_MASK)
    } else if tok == "SUPER"@ || tok == "WIN"@ || tok == "WINDOWS"@ || tok == "MOD4"@ {
        Some(MOD4_MASK)
    } else {
        None
    }
}

/// The keysym of a multi-character key name.
pub open spec fn named_keysym(tok: Seq<char>) -> Option<u64> {
    if tok == "SPACE"@ {
        Some(KEYSYM_SPACE)
    } else if tok == "TAB"@ {
        Some(KEYSYM_TAB)
    } else if tok == "ENTER"@ || tok == "RETURN"@ {
        Some(KEYSYM_RETURN)
    } else if tok == "RIGHT"@ {
        Some(KEYSYM_RIGHT)
    } else if tok == "LEFT"@ {
        Some(KEYSYM_LEFT)
    } else if tok == "UP"@ {
        Some(KEYSYM_UP)
    } else if tok == "DOWN"@ {
        Some(KEYSYM_DOWN)
    } else {
        None
    }
}

/// A single character stands for its own code; a longer token goes through the name table.
pub open spec fn token_keysym(tok: Seq<char>) -> Option<u64> {
    if tok.len() == 1 {
        Some(tok[0] as u32 as u64)
    } else {
        named_keysym(tok)
    }
}

/// Modifier mask and key token gathered from folded tokens; of several key tokens the last one wins.
pub open spec fn scan_tokens(toks: Seq<Seq<char>>) -> (u32, Option<Seq<char>>)
    decreases toks.len(),
{
    if toks.len() == 0 {
        (0u32, None)
    } else {
        let (m, k) = scan_tokens(toks.drop_last());
        match modifier_bit(toks.last()) {
            Some(b) => ((m | b) as u32, k),
            None => (m, Some(toks.last())),
        }
    }
}

/// The (modifier mask, keysym) that a binding such as `"ctrl+shift+Q"` denotes.
pub open spec fn keybind_spec(s: Seq<char>) -> Option<(u32, u64)> {
    let toks = split_on(s, '+').map_values(|p: Seq<char>| fold_token(p));
    let (m, k) = scan_tokens(toks);
    match k {
        None => None,
        Some(t) => match token_keysym(t) {
            Some(ks) => Some((m, ks)),
            None => None,
        },
    }
}

/// Whether `s` is exactly `word`.
pub(crate) fn is_word(s: &String, word: &str) -> (r: bool)
    ensures
        r == (s@ == word@),
{
    let w: String = word.to_owned();
    *s == w
}

fn modifier_of(tok: &String) -> (r: Option<u32>)
    ensures
        r == modifier_bit(tok@),
{
    if is_word(tok, "CTRL") || is_word(tok, "CONTROL") {
        Some(CONTROL_MASK)
    } else if is_word(tok, "SHIFT") {
        Some(SHIFT_MASK)
    } else if is_word(tok, "ALT") {
        Some(MOD1_MASK)
    } else if is_word(tok, "SUPER") || is_word(tok, "WIN") || is_word(tok, "WINDOWS") || is_word(
        tok,
        "MOD4",
    ) {
        Some(MOD4_MASK)
    } else {
        None
    }
}

fn keysym_of(tok: &String) -> (r: Option<u64>)
    ensures
        r == token_keysym(tok@),
{
    let s: &str = tok.as_str();
    if s.unicode_len() == 1 {
        let c: char = s.get_char(0);
        Some(c as u32 as u64)
    } else if is_word(tok, "SPACE") {
        Some(KEYSYM_SPACE)
    } else if is_word(tok, "TAB") {
        Some(KEYSYM_TAB)
    } else if is_word(tok, "ENTER") || is_word(tok, "RETURN") {
        Some(KEYSYM_RETURN)
    } else if is_word(tok, "RIGHT") {
        Some(KEYSYM_RIGHT)
    } else if is_word(tok, "LEFT") {
        Some(KEYSYM_LEFT)
    } else if is_word(tok, "UP") {
        Some(KEYSYM_UP)
    } else if is_word(tok, "DOWN") {
        Some(KEYSYM_DOWN)
    } else {
        None
    }
}

fn fold_piece(s: &str, from: usize, to: usize) -> (r: String)
    requires
        from <= to <= s@.len(),
    ensures
        r@ == fold_token(s@.subrange(from as int, to as int)),
{
    let piece: &str = s.substring_char(from, to);
    uppercase(trimmed(piece))
}

/// Splits `s` on `'+'` and folds each piece.
pub fn folded_tokens(s: &str) -> (r: Vec<String>)
    ensures
        r@.map_values(|t: String| t@) == split_on(s@, '+').map_values(|p: Seq<char>| fold_token(p)),
{
    let n: usize = s.unicode_len();
    let mut r: Vec<String> = Vec::new();
    let mut start: usize = 0;
    let mut i: usize = 0;
    proof {
        assert(s@.take(0) =~= Seq::<char>::empty());
        assert(s@.subrange(0, 0) =~= Seq::<char>::empty());
    }
    while i < n
        invariant
            n == s@.len(),
            start <= i <= n,
            split_on(s@.take(i as int), '+').len() >= 1,
            split_on(s@.take(i as int), '+').last() == s@.subrange(start as int, i as int),
            r@.map_values(|t: String| t@) == split_on(s@.take(i as int), '+').drop_last().map_values(
                |p: Seq<char>| fold_token(p),
            ),
        decreases n - i,
    {
        let c: char = s.get_char(i);
        let ghost before = split_on(s@.take(i as int), '+');
        proof {
            assert(s@.take(i + 1).drop_last() =~= s@.take(i as int));
            assert(s@.take(i + 1).last() == c);
        }
        if c == '+' {
            let tok = fold_piece(s, start, i);
            let ghost old_r = r@;
            let ghost tv = tok@;
            r.push(tok);
            start = i + 1;
            proof {
                assert(r@.map_values(|t: String| t@) =~= old_r.map_values(|t: String| t@).push(tv));
                assert(before =~= before.drop_last().push(before.last()));
                let after = split_on(s@.take(i + 1), '+');
                assert(after == before.push(Seq::<char>::empty()));
                assert(after.drop_last() =~= before);
                assert(r@.map_values(|t: String| t@) =~= before.map_values(
                    |p: Seq<char>| fold_token(p),
                ));
                assert(s@.subrange(start as int, i + 1) =~= Seq::<char>::empty());
            }
        } else {
            proof {
                let after = split_on(s@.take(i + 1), '+');
                assert(after.drop_last() =~= before.drop_last());
                assert(s@.subrange(start as int, i + 1) =~= s@.subrange(start as int, i as int).push(
                    c,
                ));
            }
        }
        i = i + 1;
    }
    let tok = fold_piece(s, start, n);
    let ghost old_r = r@;
    r.push(tok);
    proof {
        assert(r@.map_values(|t: String| t@) =~= old_r.map_values(|t: String| t@).push(tok@));
        let all = split_on(s@.take(n as int), '+');
        assert(s@.take(n as int) =~= s@);
        assert(all =~= all.drop_last().push(all.last()));
        assert(r@.map_values(|t: String| t@) =~= all.map_values(|p: Seq<char>| fold_token(p)));
    }
    r
}

/// Resolves a binding such as `"SUPER+RETURN"` to its modifier mask and keysym.
/// Tokens are split on `'+'`, trimmed and upper-cased; modifier names add their bit,
/// any other token is the key, and of several key tokens the last one wins.
/// `None` when there is no key token or a multi-character key is not a known name.
pub fn parse_keybind(keys: &str) -> (r: Option<(u32, u64)>)
    ensures
        r == keybind_spec(keys@),
{
    let toks = folded_tokens(keys);
    let ghost views = toks@.map_values(|t: String| t@);
    let mut mask: u32 = 0;
    let mut key: Option<usize> = None;
    let mut i: usize = 0;
    while i < toks.len()
        invariant
            i <= toks@.len(),
            views == toks@.map_values(|t: String| t@),
            scan_tokens(views.take(i as int)).0 == mask,
            match scan_tokens(views.take(i as int)).1 {
                None => key is None,
                Some(t) => key matches Some(k) && k < i && t == views[k as int],
            },
        decreases toks.len() - i,
    {
        proof {
            assert(views.take(i + 1).drop_last() =~= views.take(i as int));
        }
        match modifier_of(&toks[i]) {
            Some(b) => {
                mask = mask | b;
            },
            None => {
                key = Some(i);
            },
        }
        i = i + 1;
    }
    proof {
        assert(views.take(i as int) =~= views);
    }
    match key {
        None => None,
        Some(k) => match keysym_of(&toks[k]) {
            Some(ks) => Some((mask, ks)),
            None => None,
        },
    }
}

/// Reads a modifier name such as `"super"` as used for the move and resize bindings.
pub open spec fn modifier_spec(name: Seq<char>) -> Option<u32> {
    modifier_bit(fold_token(name))
}

/// The mask of a modifier name, after trimming and case folding; `None` for other names.
pub fn parse_modifier(name: &str) -> (r: Option<u32>)
    ensures
        r == modifier_spec(name@),
{
    let tok = uppercase(trimmed(name));
    modifier_of(&tok)
}

/// The four lock-state variants under which a binding is grabbed: none, caps lock,
/// num lock, and both, so that a press with either lock on still reaches the manager.
pub fn lock_variants(mask: u32) -> (r: Vec<u32>)
    ensures
        r@ == seq![mask, mask | LOCK_MASK, mask | MOD2_MASK, mask | LOCK_MASK | MOD2_MASK],
{
    let mut r: Vec<u32> = Vec::new();
    r.push(mask);
    r.push(mask | LOCK_MASK);
    r.push(mask | MOD2_MASK);
    r.push(mask | LOCK_MASK | MOD2_MASK);
    proof {
        assert(r@ =~= seq![mask, mask | LOCK_MASK, mask | MOD2_MASK, mask | LOCK_MASK | MOD2_MASK]);
    }
    r
}

/// An event state reduced to the modifiers that bindings compare on.
pub fn relevant_modifiers(state: u32) -> (r: u32)
    ensures
        r == state & RELEVANT_MODIFIERS,
{
    state & RELEVANT_MODIFIERS
}

/// The actions that the manager performs itself.
#[derive(Clone, Copy, Debug, PartialEq, Eq, Structural)]
pub enum BuiltinAction {
    Close,
    DesktopLeft,
    DesktopRight,
    Unfloat,
}

pub open spec fn action_spec(name: Seq<char>) -> Option<BuiltinAction> {
    if name == "close"@ {
        Some(BuiltinAction::Close)
    } else if name == "desktop_left"@ {
        Some(BuiltinAction::DesktopLeft)
    } else if name == "desktop_right"@ {
        Some(BuiltinAction::DesktopRight)
    } else if name == "unfloat"@ {
        Some(BuiltinAction::Unfloat)
    } else {
        None
    }
}

fn str_is(s: &str, word: &str) -> (r: bool)
    ensures
        r == (s@ == word@),
{
    let a: String = s.to_owned();
    is_word(&a, word)
}

/// Decodes a built-in action token; an unknown token is `None`.
pub fn parse_action(name: &str) -> (r: Option<BuiltinAction>)
    ensures
        r == action_spec(name@),
{
    if str_is(name, "close") {
        Some(BuiltinAction::Close)
    } else if str_is(name, "desktop_left") {
        Some(BuiltinAction::DesktopLeft)
    } else if str_is(name, "desktop_right") {
        Some(BuiltinAction::DesktopRight)
    } else if str_is(name, "unfloat") {
        Some(BuiltinAction::Unfloat)
    } else {
        None
    }
}

/// What a binding does: a built-in action, or a command line to launch.
#[derive(Clone, Debug)]
pub enum Action {
    Builtin(BuiltinAction),
    Exec(String),
}

/// A configured binding whose key spec has been resolved.
#[derive(Clone, Debug)]
pub struct Binding {
    pub mask: u32,
    pub keycode: i32,
    pub action: Action,
}

/// A binding whose keysym still has to be turned into a keycode by the display server.
#[derive(Clone, Debug)]
pub struct KeyRow {
    pub mask: u32,
    pub keysym: u64,
    pub action: Action,
}

pub open spec fn action_matches(a: Action, exec: bool, command: Seq<char>) -> bool {
    if exec {
        a matches Action::Exec(c) && c@ == command
    } else {
        match action_spec(command) {
            Some(b) => a == Action::Builtin(b),
            None => false,
        }
    }
}

/// When a configuration row (key spec, action) decodes, and to what.
pub open spec fn row_spec(row: Seq<Seq<char>>, exec: bool, r: Option<KeyRow>) -> bool {
    let ok = row.len() == 2 && keybind_spec(row[0]) is Some && (exec || action_spec(row[1]) is Some);
    match r {
        None => !ok,
        Some(k) => ok && keybind_spec(row[0]) == Some((k.mask, k.keysym)) && action_matches(
            k.action,
            exec,
            row[1],
        ),
    }
}

/// Decodes one configuration row: a key spec and either a built-in action token
/// (`exec == false`) or a command line (`exec == true`). A row of another length,
/// an unreadable key spec or an unknown built-in action gives `None`.
pub fn decode_row(row: &Vec<String>, exec: bool) -> (r: Option<KeyRow>)
    ensures
        row_spec(row@.map_values(|s: String| s@), exec, r),
{
    let ghost v = row@.map_values(|s: String| s@);
    if row.len() != 2 {
        return None;
    }
    assert(v[0] == row@[0]@ && v[1] == row@[1]@);
    let (mask, keysym) = match parse_keybind(row[0].as_str()) {
        Some(p) => p,
        None => {
            return None;
        },
    };
    if exec {
        Some(KeyRow { mask, keysym, action: Action::Exec(row[1].clone()) })
    } else {
        match parse_action(row[1].as_str()) {
            Some(b) => Some(KeyRow { mask, keysym, action: Action::Builtin(b) }),
            None => None,
        }
    }
}

pub open spec fn binding_matches(b: Binding, state: u32, keycode: i32) -> bool {
    b.mask == state & RELEVANT_MODIFIERS && b.keycode == keycode
}

/// The first built-in action among `bs` whose binding matches the event.
pub open spec fn first_builtin(bs: Seq<Binding>, state: u32, keycode: i32) -> Option<BuiltinAction>
    decreases bs.len(),
{
    if bs.len() == 0 {
        None
    } else {
        match first_builtin(bs.drop_last(), state, keycode) {
            Some(a) => Some(a),
            None => if binding_matches(bs.last(), state, keycode) {
                match bs.last().action {
                    Action::Builtin(a) => Some(a),
                    Action::Exec(_) => None,
                }
            } else {
                None
            },
        }
    }
}

/// The command lines of all exec bindings among `bs` that match the event, in order.
pub open spec fn matching_commands(bs: Seq<Binding>, state: u32, keycode: i32) -> Seq<Seq<char>>
    decreases bs.len(),
{
    if bs.len() == 0 {
        Seq::empty()
    } else {
        let rest = matching_commands(bs.drop_last(), state, keycode);
        if binding_matches(bs.last(), state, keycode) {
            match bs.last().action {
                Action::Exec(c) => rest.push(c@),
                Action::Builtin(_) => rest,
            }
        } else {
            rest
        }
    }
}

/// What a key press triggers.
pub struct KeyMatch {
    pub builtin: Option<BuiltinAction>,
    pub commands: Vec<String>,
}

/// Matches a key press against the bindings: the state is reduced to the relevant
/// modifiers, and mask and keycode must both be equal. At most one built-in action
/// (the first that matches) runs; every matching command line is launched.
pub fn match_key(bindings: &Vec<Binding>, state: u32, keycode: i32) -> (r: KeyMatch)
    ensures
        r.builtin == first_builtin(bindings@, state, keycode),
        r.commands@.map_values(|c: String| c@) == matching_commands(bindings@, state, keycode),
{
    let relevant = relevant_modifiers(state);
    let mut builtin: Option<BuiltinAction> = None;
    let mut commands: Vec<String> = Vec::new();
    let mut i: usize = 0;
    while i < bindings.len()
        invariant
            i <= bindings@.len(),
            relevant == state & RELEVANT_MODIFIERS,
            builtin == first_builtin(bindings@.take(i as int), state, keycode),
            commands@.map_values(|c: String| c@) == matching_commands(
                bindings@.take(i as int),
                state,
                keycode,
            ),
        decreases bindings.len() - i,
    {
        proof {
            assert(bindings@.take(i + 1).drop_last() =~= bindings@.take(i as int));
        }
        let b = &bindings[i];
        if b.mask == relevant && b.keycode == keycode {
            match &b.action {
                Action::Builtin(a) => {
                    if builtin.is_none() {
                        builtin = Some(*a);
                    }
                },
                Action::Exec(c) => {
                    let ghost old_c = commands@;
                    commands.push(c.clone());
                    proof {
                        assert(commands@.map_values(|c: String| c@) =~= old_c.map_values(
                            |c: String| c@,
                        ).push(c@));
                    }
                },
            }
        }
        i = i + 1;
    }
    proof {
        assert(bindings@.take(i as int) =~= bindings@);
    }
    KeyMatch { builtin, commands }
}

} // verus!
