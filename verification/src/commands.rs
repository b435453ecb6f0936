//! Mapping text commands to player actions.
//!
//! Commands arrive as chat text. A command starts with a dot; the verb runs
//! to the first space and the rest is its argument. Track and playlist
//! arguments may arrive wrapped in markup tags, which are stripped first.
//! Recognized verbs map to player actions directly, or to a request against
//! the external track resolver; anything else is silently ignored.

use vstd::prelude::*;

use crate::player::PlayerAction;

verus! {

/// The first index at or after `i` holding `c`, or minus one.
pub open spec fn find_char(s: Seq<char>, c: char, i: int) -> int
    decreases s.len() - i,
{
    if i < 0 || i >= s.len() {
        -1
    } else if s[i] == c {
        i
    } else {
        find_char(s, c, i + 1)
    }
}

/// Whether `prefix` is a prefix of `s`.
pub open spec fn starts_with_spec(s: Seq<char>, prefix: Seq<char>) -> bool {
    prefix.len() <= s.len() && s.subrange(0, prefix.len() as int) == prefix
}

/// The text left of the first space: the whole text when there is none.
pub open spec fn split_cmd(m: Seq<char>) -> Seq<char> {
    let sp = find_char(m, ' ', 0);
    if sp < 0 {
        m
    } else {
        m.take(sp)
    }
}

/// The text right of the first space: empty when there is none.
pub open spec fn split_arg(m: Seq<char>) -> Seq<char> {
    let sp = find_char(m, ' ', 0);
    if sp < 0 {
        Seq::empty()
    } else {
        m.skip(sp + 1)
    }
}

/// The text from index `i` on with markup tags removed, entered with the
/// in-tag flag set to `within`: a `<` starts a tag, a `>` ends one, and
/// only characters outside any tag are kept.
pub open spec fn strip_from(s: Seq<char>, i: int, within: bool) -> Seq<char>
    decreases s.len() - i,
{
    if i < 0 || i >= s.len() {
        Seq::empty()
    } else {
        let c = s[i];
        let w1 = if c == '<' {
            true
        } else {
            within
        };
        let kept: Seq<char> = if !w1 {
            seq![c]
        } else {
            Seq::empty()
        };
        let w2 = if c == '>' {
            false
        } else {
            w1
        };
        kept + strip_from(s, i + 1, w2)
    }
}

/// A whole text with markup tags removed.
pub open spec fn stripped_tags(s: Seq<char>) -> Seq<char> {
    strip_from(s, 0, false)
}

/// Whether the text is one or more decimal digits.
pub open spec fn is_digits(s: Seq<char>) -> bool {
    s.len() > 0 && forall|j: int| 0 <= j < s.len() ==> 48 <= #[trigger] (s[j] as u32) <= 57
}

/// The number the digits spell, most significant first.
pub open spec fn digits_value(s: Seq<char>) -> int
    decreases s.len(),
{
    if s.len() == 0 {
        0
    } else {
        digits_value(s.take(s.len() - 1)) * 10 + ((s[s.len() - 1] as u32) - 48)
    }
}

/// The volume percentage an argument names: digits spelling zero to one
/// hundred; anything else is out of range or unparsable.
pub open spec fn parse_percent_spec(s: Seq<char>) -> Option<u8> {
    if is_digits(s) && digits_value(s) <= 100 {
        Some(digits_value(s) as u8)
    } else {
        None
    }
}

/// What one chat line asks of the player.
#[derive(Debug, PartialEq)]
pub enum Command {
    /// A player action to forward as it stands.
    Act(PlayerAction),
    /// Resolve this catalog track URI, then enqueue the track.
    ResolveTrack(String),
    /// Search the catalog for this text, then enqueue the first hit.
    SearchTrack(String),
    /// Resolve this catalog playlist URI, then enqueue every track.
    ResolvePlaylist(String),
    /// Not a recognized command; nothing happens.
    Ignore,
}

/// `Command` with its texts abstracted to character sequences.
pub ghost enum CommandView {
    Act(PlayerAction),
    ResolveTrack(Seq<char>),
    SearchTrack(Seq<char>),
    ResolvePlaylist(Seq<char>),
    Ignore,
}

impl View for Command {
    type V = CommandView;

    open spec fn view(&self) -> CommandView {
        match self {
            Command::Act(a) => CommandView::Act(*a),
            Command::ResolveTrack(s) => CommandView::ResolveTrack(s@),
            Command::SearchTrack(s) => CommandView::SearchTrack(s@),
            Command::ResolvePlaylist(s) => CommandView::ResolvePlaylist(s@),
            Command::Ignore => CommandView::Ignore,
        }
    }
}

/// The catalog URI for a track URL: the id runs from the end of the URL
/// base to the first query marker, if any.
pub open spec fn track_uri_of(stripped: Seq<char>) -> Seq<char> {
    let rest = stripped.skip("https://open.spotify.com/track/"@.len() as int);
    let q = find_char(rest, '?', 0);
    let id = if q >= 0 {
        rest.take(q)
    } else {
        rest
    };
    "spotify:track:"@ + id
}

/// The catalog URI for a playlist URL, by the same rule.
pub open spec fn playlist_uri_of(stripped: Seq<char>) -> Seq<char> {
    let rest = stripped.skip("https://open.spotify.com/playlist/"@.len() as int);
    let q = find_char(rest, '?', 0);
    let id = if q >= 0 {
        rest.take(q)
    } else {
        rest
    };
    "spotify:playlist:"@ + id
}

/// What a `.sp` argument asks for once its tags are stripped: nothing when
/// empty, a track resolution when it is a track URL, otherwise a search.
pub open spec fn sp_decision(stripped: Seq<char>) -> CommandView {
    if stripped.len() == 0 {
        CommandView::Ignore
    } else if starts_with_spec(stripped, "https://open.spotify.com/track/"@) {
        CommandView::ResolveTrack(track_uri_of(stripped))
    } else {
        CommandView::SearchTrack(stripped)
    }
}

/// What a `.spplaylist` argument asks for: a playlist resolution when it is
/// a playlist URL, otherwise nothing.
pub open spec fn spplaylist_decision(stripped: Seq<char>) -> CommandView {
    if starts_with_spec(stripped, "https://open.spotify.com/playlist/"@) {
        CommandView::ResolvePlaylist(playlist_uri_of(stripped))
    } else {
        CommandView::Ignore
    }
}

/// The decision for one whole chat line.
pub open spec fn parse_command_spec(m: Seq<char>) -> CommandView {
    if m.len() == 0 || m[0] != '.' {
        CommandView::Ignore
    } else {
        let cmd = split_cmd(m);
        let arg = split_arg(m);
        if cmd == ".stop"@ {
            CommandView::Act(PlayerAction::Stop)
        } else if cmd == ".show"@ {
            CommandView::Act(PlayerAction::ShowQueue)
        } else if cmd == ".next"@ {
            CommandView::Act(PlayerAction::Next)
        } else if cmd == ".pause"@ {
            CommandView::Act(PlayerAction::Pause)
        } else if cmd == ".resume"@ {
            CommandView::Act(PlayerAction::Resume)
        } else if cmd == ".v"@ {
            match parse_percent_spec(arg) {
                Some(v) => CommandView::Act(PlayerAction::SetVolume(v)),
                None => CommandView::Ignore,
            }
        } else if cmd == ".sp"@ {
            sp_decision(stripped_tags(arg))
        } else if cmd == ".spplaylist"@ {
            spplaylist_decision(stripped_tags(arg))
        } else {
            CommandView::Ignore
        }
    }
}

/// Whether two strings hold the same characters.
fn str_eq(a: &str, b: &str) -> (r: bool)
    ensures
        r == (a@ == b@),
{
    let na = a.unicode_len();
    let nb = b.unicode_len();
    if na != nb {
        return false;
    }
    for i in 0..na
        invariant
            na == a@.len(),
            na == b@.len(),
            forall|j: int| 0 <= j < i ==> a@[j] == b@[j],
    {
        if a.get_char(i) != b.get_char(i) {
            return false;
        }
    }
    proof {
        assert(a@ =~= b@);
    }
    true
}

/// Whether `prefix` begins `s`.
fn starts_with_exec(s: &str, prefix: &str) -> (r: bool)
    ensures
        r == starts_with_spec(s@, prefix@),
{
    let np = prefix.unicode_len();
    let ns = s.unicode_len();
    if np > ns {
        return false;
    }
    for i in 0..np
        invariant
            np == prefix@.len(),
            ns == s@.len(),
            np <= ns,
            forall|j: int| 0 <= j < i ==> s@[j] == prefix@[j],
    {
        if s.get_char(i) != prefix.get_char(i) {
            proof {
                assert(s@.subrange(0, np as int)[i as int] != prefix@[i as int]);
            }
            return false;
        }
    }
    proof {
        assert(s@.subrange(0, np as int) =~= prefix@);
    }
    true
}

/// The first position of `c` in `s`, if any.
fn find_char_exec(s: &str, c: char) -> (r: Option<usize>)
    ensures
        match r {
            Some(i) => find_char(s@, c, 0) == i as int && i < s@.len() && s@[i as int] == c,
            None => find_char(s@, c, 0) == -1,
        },
{
    let n = s.unicode_len();
    for i in 0..n
        invariant
            n == s@.len(),
            find_char(s@, c, 0) == find_char(s@, c, i as int),
    {
        if s.get_char(i) == c {
            return Some(i);
        }
    }
    None
}

/// Remove markup tags: everything from a `<` through the next `>` goes,
/// the rest stays in order.
pub fn tag_stripper(input: &str) -> (out: String)
    ensures
        out@ == stripped_tags(input@),
{
    let mut output = String::new();
    let mut within_tag = false;
    let n = input.unicode_len();
    for i in 0..n
        invariant
            n == input@.len(),
            output@ + strip_from(input@, i as int, within_tag) == stripped_tags(input@),
    {
        let c = input.get_char(i);
        let ghost within_before = within_tag;
        if c == '<' {
            within_tag = true;
        }
        if !within_tag {
            let piece = input.substring_char(i, i + 1);
            output.append(piece);
            proof {
                assert(piece@ =~= seq![input@[i as int]]);
            }
        }
        if c == '>' {
            within_tag = false;
        }
        proof {
            assert(output@ + strip_from(input@, i as int + 1, within_tag) =~= stripped_tags(
                input@,
            ));
        }
    }
    assert(output@ =~= stripped_tags(input@));
    output
}

/// Parse a volume argument: one or more digits spelling zero to one
/// hundred; anything else is ignored.
pub fn parse_percent(s: &str) -> (r: Option<u8>)
    ensures
        r == parse_percent_spec(s@),
{
    let n = s.unicode_len();
    if n == 0 {
        return None;
    }
    let mut acc: u32 = 0;
    for i in 0..n
        invariant
            n == s@.len(),
            n > 0,
            forall|j: int| 0 <= j < i ==> 48 <= #[trigger] (s@[j] as u32) <= 57,
            if digits_value(s@.take(i as int)) <= 100 {
                acc == digits_value(s@.take(i as int))
            } else {
                acc == 101
            },
    {
        let c = s.get_char(i);
        let d = c as u32;
        if d < 48 || d > 57 {
            return None;
        }
        let dig = d - 48;
        if acc > 100 {
            acc = 101;
        } else {
            let t = acc * 10 + dig;
            if t > 100 {
                acc = 101;
            } else {
                acc = t;
            }
        }
        proof {
            assert(s@.take(i as int + 1).take(i as int) =~= s@.take(i as int));
            assert(digits_value(s@.take(i as int + 1)) == digits_value(s@.take(i as int)) * 10 + (
            dig as int));
        }
    }
    proof {
        assert(s@.take(n as int) =~= s@);
    }
    if acc <= 100 {
        Some(acc as u8)
    } else {
        None
    }
}

/// Map one chat line to its command: a dot-prefixed verb picks the action,
/// `.sp` and `.spplaylist` name a resolver request, everything else is
/// silently ignored.
pub fn parse_command(message: &str) -> (r: Command)
    ensures
        r@ == parse_command_spec(message@),
{
    let n = message.unicode_len();
    if n == 0 || message.get_char(0) != '.' {
        return Command::Ignore;
    }
    let space = find_char_exec(message, ' ');
    let cmd: &str;
    let arg: &str;
    match space {
        Some(i) => {
            cmd = message.substring_char(0, i);
            arg = message.substring_char(i + 1, n);
            proof {
                assert(cmd@ =~= split_cmd(message@));
                assert(arg@ =~= split_arg(message@));
            }
        },
        None => {
            cmd = message;
            arg = "";
            proof {
                reveal_strlit("");
                assert(arg@ =~= split_arg(message@));
            }
        },
    }
    if str_eq(cmd, ".stop") {
        return Command::Act(PlayerAction::Stop);
    }
    if str_eq(cmd, ".show") {
        return Command::Act(PlayerAction::ShowQueue);
    }
    if str_eq(cmd, ".next") {
        return Command::Act(PlayerAction::Next);
    }
    if str_eq(cmd, ".pause") {
        return Command::Act(PlayerAction::Pause);
    }
    if str_eq(cmd, ".resume") {
        return Command::Act(PlayerAction::Resume);
    }
    if str_eq(cmd, ".v") {
        return match parse_percent(arg) {
            Some(v) => Command::Act(PlayerAction::SetVolume(v)),
            None => Command::Ignore,
        };
    }
    if str_eq(cmd, ".sp") {
        let stripped = tag_stripper(arg);
        let sl = stripped.as_str().unicode_len();
        if sl == 0 {
            return Command::Ignore;
        }
        let track_base = "https://open.spotify.com/track/";
        if starts_with_exec(stripped.as_str(), track_base) {
            let bl = track_base.unicode_len();
            let rest = stripped.as_str().substring_char(bl, sl);
            proof {
                assert(rest@ =~= stripped@.skip(track_base@.len() as int));
            }
            let rl = rest.unicode_len();
            let id_end = match find_char_exec(rest, '?') {
                Some(q) => q,
                None => rl,
            };
            let id = rest.substring_char(0, id_end);
            let mut uri = String::from_str("spotify:track:");
            uri.append(id);
            proof {
                assert(rest@.take(rest@.len() as int) =~= rest@);
                assert(uri@ =~= track_uri_of(stripped@));
            }
            return Command::ResolveTrack(uri);
        }
        return Command::SearchTrack(stripped);
    }
    if str_eq(cmd, ".spplaylist") {
        let stripped = tag_stripper(arg);
        let playlist_base = "https://open.spotify.com/playlist/";
        if starts_with_exec(stripped.as_str(), playlist_base) {
            let bl = playlist_base.unicode_len();
            let sl = stripped.as_str().unicode_len();
            let rest = stripped.as_str().substring_char(bl, sl);
            proof {
                assert(rest@ =~= stripped@.skip(playlist_base@.len() as int));
            }
            let rl = rest.unicode_len();
            let id_end = match find_char_exec(rest, '?') {
                Some(q) => q,
                None => rl,
            };
            let id = rest.substring_char(0, id_end);
            let mut uri = String::from_str("spotify:playlist:");
            uri.append(id);
            proof {
                assert(rest@.take(rest@.len() as int) =~= rest@);
                assert(uri@ =~= playlist_uri_of(stripped@));
            }
            return Command::ResolvePlaylist(uri);
        }
        return Command::Ignore;
    }
    Command::Ignore
}

} // verus!
