//! Launch at login: where the launch agent lives, what it holds, and which
//! change the setting asks of the file.
use vstd::prelude::*;
use vstd::string::*;
use crate::paths::{
    home_dir_string, join, join_path, path_ancestors, path_ancestors_of, path_extension,
    path_extension_of,
};
use crate::text::{chars_of, push_char};

verus! {

/// The label of the launch agent, and the stem of its file name.
pub const LAUNCH_AGENT_LABEL: &'static str = "com.macttc.downloader";

/// File name of the launch agent.
pub const LAUNCH_AGENT_FILE_NAME: &'static str = "com.macttc.downloader.plist";

/// The plist text before the label.
pub const PLIST_HEAD: &'static str = "<?xml version=\"1.0\" encoding=\"UTF-8\"?>\n<!DOCTYPE plist PUBLIC \"-//Apple//DTD PLIST 1.0//EN\" \"http://www.apple.com/DTDs/PropertyList-1.0.dtd\">\n<plist version=\"1.0\">\n<dict>\n  <key>Label</key>\n  <string>";

/// The plist text between the label and the application bundle.
pub const PLIST_MIDDLE: &'static str = "</string>\n  <key>ProgramArguments</key>\n  <array>\n    <string>/usr/bin/open</string>\n    <string>";

/// The plist text after the application bundle.
pub const PLIST_TAIL: &'static str = "</string>\n  </array>\n  <key>RunAtLoad</key>\n  <true/>\n</dict>\n</plist>\n";

/// How one character is written in XML text.
pub open spec fn escape_char(c: char) -> Seq<char> {
    if c == '&' {
        seq!['&', 'a', 'm', 'p', ';']
    } else if c == '<' {
        seq!['&', 'l', 't', ';']
    } else if c == '>' {
        seq!['&', 'g', 't', ';']
    } else if c == '"' {
        seq!['&', 'q', 'u', 'o', 't', ';']
    } else if c == '\'' {
        seq!['&', 'a', 'p', 'o', 's', ';']
    } else {
        seq![c]
    }
}

/// `s` written as XML text, each character escaped in turn.
pub open spec fn escaped(s: Seq<char>) -> Seq<char>
    decreases s.len(),
{
    if s.len() == 0 {
        seq![]
    } else {
        escaped(s.drop_last()) + escape_char(s.last())
    }
}

/// Escapes the five XML special characters of `value` (`&`, `<`, `>`, `"`, `'`).
pub fn escape_plist_text(value: &str) -> (r: String)
    ensures
        r@ == escaped(value@),
{
    let v = chars_of(value);
    let mut r = String::new();
    let mut i: usize = 0;
    while i < v.len()
        invariant
            i <= v.len(),
            v@ == value@,
            r@ == escaped(v@.take(i as int)),
        decreases v.len() - i,
    {
        let c = v[i];
        let ghost before = r@;
        if c == '&' {
            r.append("&amp;");
            proof {
                reveal_strlit("&amp;");
            }
        } else if c == '<' {
            r.append("&lt;");
            proof {
                reveal_strlit("&lt;");
            }
        } else if c == '>' {
            r.append("&gt;");
            proof {
                reveal_strlit("&gt;");
            }
        } else if c == '"' {
            r.append("&quot;");
            proof {
                reveal_strlit("&quot;");
            }
        } else if c == '\'' {
            r.append("&apos;");
            proof {
                reveal_strlit("&apos;");
            }
        } else {
            push_char(&mut r, c);
        }
        assert(r@ =~= before + escape_char(c));
        assert(v@.take(i + 1).drop_last() =~= v@.take(i as int));
        i = i + 1;
    }
    assert(v@.take(v.len() as int) =~= v@);
    r
}

/// No character of `t` is one that XML text must escape besides `&`.
pub open spec fn free_of_markup(t: Seq<char>) -> bool {
    forall|i: int|
        0 <= i < t.len() ==> #[trigger] t[i] != '<' && t[i] != '>' && t[i] != '"' && t[i] != '\''
}

/// Law: escaped text holds no `<`, `>`, `"` or `'`, so it cannot end the plist
/// element it is written into.
pub proof fn lemma_escaped_has_no_markup(s: Seq<char>)
    ensures
        free_of_markup(escaped(s)),
    decreases s.len(),
{
    if s.len() > 0 {
        lemma_escaped_has_no_markup(s.drop_last());
        let a = escaped(s.drop_last());
        let b = escape_char(s.last());
        assert forall|i: int| 0 <= i < (a + b).len() implies #[trigger] (a + b)[i] != '<' && (a
            + b)[i] != '>' && (a + b)[i] != '"' && (a + b)[i] != '\'' by {
            if i >= a.len() {
                assert((a + b)[i] == b[i - a.len()]);
            } else {
                assert((a + b)[i] == a[i]);
            }
        }
    }
}

proof fn lemma_escaped_concat(a: Seq<char>, b: Seq<char>)
    ensures
        escaped(a + b) == escaped(a) + escaped(b),
    decreases b.len(),
{
    if b.len() == 0 {
        assert(a + b =~= a);
        assert(escaped(a) + escaped(b) =~= escaped(a));
    } else {
        assert((a + b).drop_last() =~= a + b.drop_last());
        assert((a + b).last() == b.last());
        lemma_escaped_concat(a, b.drop_last());
        assert(escaped(a + b) == escaped(a + b.drop_last()) + escape_char(b.last()));
        assert(escaped(a) + escaped(b) =~= escaped(a) + escaped(b.drop_last()) + escape_char(
            b.last(),
        ));
    }
}

proof fn lemma_escaped_front(s: Seq<char>)
    requires
        s.len() > 0,
    ensures
        escaped(s) == escape_char(s[0]) + escaped(s.drop_first()),
{
    let head = seq![s[0]];
    assert(s =~= head + s.drop_first());
    lemma_escaped_concat(head, s.drop_first());
    assert(head.drop_last() =~= Seq::<char>::empty());
    assert(escaped(Seq::<char>::empty()) == Seq::<char>::empty());
    assert(escaped(head) == escaped(head.drop_last()) + escape_char(head.last()));
    assert(escaped(head) =~= escape_char(s[0]));
}

/// Reading XML text back: each entity that the escaping writes stands for its character.
spec fn unescaped(t: Seq<char>) -> Seq<char>
    decreases t.len(),
{
    if t.len() == 0 {
        seq![]
    } else if t.len() >= 5 && t.take(5) == escape_char('&') {
        seq!['&'] + unescaped(t.skip(5))
    } else if t.len() >= 4 && t.take(4) == escape_char('<') {
        seq!['<'] + unescaped(t.skip(4))
    } else if t.len() >= 4 && t.take(4) == escape_char('>') {
        seq!['>'] + unescaped(t.skip(4))
    } else if t.len() >= 6 && t.take(6) == escape_char('"') {
        seq!['"'] + unescaped(t.skip(6))
    } else if t.len() >= 6 && t.take(6) == escape_char('\'') {
        seq!['\''] + unescaped(t.skip(6))
    } else {
        seq![t[0]] + unescaped(t.skip(1))
    }
}

proof fn lemma_unescaped_step(c: char, rest: Seq<char>)
    ensures
        unescaped(escape_char(c) + rest) == seq![c] + unescaped(rest),
{
    let e = escape_char(c);
    let t = e + rest;
    assert(t.skip(e.len() as int) =~= rest);
    assert(t.take(e.len() as int) =~= e);
    if c == '&' {
    } else if c == '<' {
        if t.len() >= 5 {
            assert(t.take(5)[1] != escape_char('&')[1]);
        }
    } else if c == '>' {
        if t.len() >= 5 {
            assert(t.take(5)[1] != escape_char('&')[1]);
        }
        assert(t.take(4)[1] != escape_char('<')[1]);
    } else if c == '"' {
        assert(t.take(5)[1] != escape_char('&')[1]);
        assert(t.take(4)[1] != escape_char('<')[1]);
        assert(t.take(4)[1] != escape_char('>')[1]);
    } else if c == '\'' {
        assert(t.take(5)[2] != escape_char('&')[2]);
        assert(t.take(4)[1] != escape_char('<')[1]);
        assert(t.take(4)[1] != escape_char('>')[1]);
        assert(t.take(6)[1] != escape_char('"')[1]);
    } else {
        assert(t[0] == c);
        assert(t.len() >= 5 ==> t.take(5)[0] != escape_char('&')[0]);
        assert(t.len() >= 4 ==> t.take(4)[0] != escape_char('<')[0]);
        assert(t.len() >= 4 ==> t.take(4)[0] != escape_char('>')[0]);
        assert(t.len() >= 6 ==> t.take(6)[0] != escape_char('"')[0]);
        assert(t.len() >= 6 ==> t.take(6)[0] != escape_char('\'')[0]);
    }
}

proof fn lemma_unescaped_escaped(s: Seq<char>)
    ensures
        unescaped(escaped(s)) == s,
    decreases s.len(),
{
    if s.len() == 0 {
    } else {
        lemma_escaped_front(s);
        lemma_unescaped_step(s[0], escaped(s.drop_first()));
        lemma_unescaped_escaped(s.drop_first());
        assert(seq![s[0]] + s.drop_first() =~= s);
    }
}

/// Law: escaping loses nothing; two different texts never escape to the same text.
pub proof fn lemma_escaping_is_injective(a: Seq<char>, b: Seq<char>)
    requires
        escaped(a) == escaped(b),
    ensures
        a == b,
{
    lemma_unescaped_escaped(a);
    lemma_unescaped_escaped(b);
}

/// The launch agent that opens `app_bundle` at login.
pub open spec fn launch_agent_plist_text(app_bundle: Seq<char>) -> Seq<char> {
    PLIST_HEAD@ + LAUNCH_AGENT_LABEL@ + PLIST_MIDDLE@ + escaped(app_bundle) + PLIST_TAIL@
}

/// The launch agent property list that opens `app_bundle` with `/usr/bin/open`
/// at login; the bundle path is escaped as XML text.
pub fn launch_agent_plist(app_bundle: &str) -> (r: String)
    ensures
        r@ == launch_agent_plist_text(app_bundle@),
{
    let escaped_bundle = escape_plist_text(app_bundle);
    let mut r = String::from_str(PLIST_HEAD);
    r.append(LAUNCH_AGENT_LABEL);
    r.append(PLIST_MIDDLE);
    r.append(escaped_bundle.as_str());
    r.append(PLIST_TAIL);
    r
}

/// The first of `ancestors` whose extension is `app`.
pub open spec fn first_app_bundle(ancestors: Seq<Seq<char>>) -> Option<Seq<char>>
    decreases ancestors.len(),
{
    if ancestors.len() == 0 {
        None
    } else if path_extension_of(ancestors[0]) == Some(seq!['a', 'p', 'p']) {
        Some(ancestors[0])
    } else {
        first_app_bundle(ancestors.drop_first())
    }
}

/// The `.app` bundle that holds `executable`: the nearest of the path and its
/// parents whose extension is `app`.
pub fn app_bundle_path(executable: &str) -> (r: Option<String>)
    ensures
        match r {
            Some(p) => first_app_bundle(path_ancestors_of(executable@)) == Some(p@),
            None => first_app_bundle(path_ancestors_of(executable@)) is None,
        },
{
    let ancestors = path_ancestors(executable);
    let ghost all = path_ancestors_of(executable@);
    let app = String::from_str("app");
    proof {
        reveal_strlit("app");
    }
    let mut i: usize = 0;
    assert(all.skip(0) =~= all);
    while i < ancestors.len()
        invariant
            i <= ancestors.len() == all.len(),
            forall|k: int| 0 <= k < ancestors@.len() ==> #[trigger] ancestors@[k]@ == all[k],
            app@ == seq!['a', 'p', 'p'],
            all == path_ancestors_of(executable@),
            first_app_bundle(all.skip(i as int)) == first_app_bundle(all),
        decreases ancestors.len() - i,
    {
        assert(all.skip(i as int)[0] == all[i as int]);
        assert(all.skip(i as int).drop_first() =~= all.skip(i + 1));
        match path_extension(ancestors[i].as_str()) {
            Some(e) => {
                if e == app {
                    assert(first_app_bundle(all.skip(i as int)) == Some(all[i as int]));
                    let found = ancestors[i].clone();
                    return Some(found);
                }
            },
            None => {},
        }
        i = i + 1;
    }
    assert(all.skip(i as int).len() == 0);
    None
}

/// The launch agent's path under the home directory `home`.
pub open spec fn launch_agent_path_under(home: Seq<char>) -> Seq<char> {
    join_path(join_path(join_path(home, "Library"@), "LaunchAgents"@), LAUNCH_AGENT_FILE_NAME@)
}

/// The launch agent's path under the home directory `home`.
pub fn launch_agent_path_for_home(home: &str) -> (r: String)
    ensures
        r@ == launch_agent_path_under(home@),
{
    let library = join(home, "Library");
    let agents = join(library.as_str(), "LaunchAgents");
    join(agents.as_str(), LAUNCH_AGENT_FILE_NAME)
}

/// The launch agent's path under the user's home directory; `None` where the
/// home directory is unknown.
pub fn launch_agent_path() -> (r: Option<String>)
    ensures
        r matches Some(p) ==> exists|h: Seq<char>| p@ == #[trigger] launch_agent_path_under(h),
{
    match home_dir_string() {
        Some(home) => Some(launch_agent_path_for_home(home.as_str())),
        None => None,
    }
}

/// What the launch-at-login setting asks of the launch agent file.
#[derive(Clone, Copy, PartialEq, Eq, Debug)]
pub enum LaunchAgentAction {
    /// Write the launch agent (creating its folder).
    Write,
    /// Remove the launch agent file.
    Remove,
    /// Leave the file system as it is.
    Keep,
}

/// The change to make: write the agent when launch at login is on, remove an
/// existing agent when it is off, and otherwise do nothing.
pub fn launch_agent_action(enabled: bool, agent_exists: bool) -> (r: LaunchAgentAction)
    ensures
        enabled ==> r == LaunchAgentAction::Write,
        !enabled && agent_exists ==> r == LaunchAgentAction::Remove,
        !enabled && !agent_exists ==> r == LaunchAgentAction::Keep,
{
    if enabled {
        LaunchAgentAction::Write
    } else if agent_exists {
        LaunchAgentAction::Remove
    } else {
        LaunchAgentAction::Keep
    }
}

} // verus!
