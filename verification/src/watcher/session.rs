//! The names of tmux sessions, and which session a watcher may dispose of.

use vstd::prelude::*;

use crate::text;

verus! {

/// What every session name begins with.
pub open spec fn session_prefix() -> Seq<char> {
    "AgentDesk-"@
}

/// `session` is the session of provider `provider` for channel name `channel`, in
/// the environment whose names end with `env_suffix`.
pub open spec fn names_session(
    session: Seq<char>,
    env_suffix: Seq<char>,
    provider: Seq<char>,
    channel: Seq<char>,
) -> bool {
    &&& channel.len() > 0
    &&& session == session_prefix() + provider + "-"@ + channel + env_suffix
}

/// `provider` is the longest of the known providers under which `session` reads as
/// a session name, and `channel` is the channel name that is left.
pub open spec fn parses_to(
    session: Seq<char>,
    env_suffix: Seq<char>,
    providers: Seq<Seq<char>>,
    provider: Seq<char>,
    channel: Seq<char>,
) -> bool {
    &&& providers.contains(provider)
    &&& names_session(session, env_suffix, provider, channel)
    &&& forall|other: Seq<char>, rest: Seq<char>|
        providers.contains(other) && #[trigger] names_session(session, env_suffix, other, rest)
            ==> other.len() <= provider.len()
}

/// Under none of the known providers `session` reads as a session name.
pub open spec fn reads_as_none(
    session: Seq<char>,
    env_suffix: Seq<char>,
    providers: Seq<Seq<char>>,
) -> bool {
    forall|provider: Seq<char>, channel: Seq<char>|
        providers.contains(provider) ==> !#[trigger] names_session(
            session,
            env_suffix,
            provider,
            channel,
        )
}

/// What lies between the prefix of session names and the environment's suffix.
pub open spec fn is_session_body(session: Seq<char>, env_suffix: Seq<char>, body: Seq<char>) -> bool {
    session == session_prefix() + body + env_suffix
}

fn session_body<'a>(session: &'a str, env_suffix: &str) -> (r: Option<&'a str>)
    ensures
        match r {
            Some(body) => is_session_body(session@, env_suffix@, body@),
            None => forall|body: Seq<char>| !is_session_body(session@, env_suffix@, body),
        },
{
    match text::strip_prefix(session, "AgentDesk-") {
        Some(rest) => {
            assert(session@ =~= session_prefix() + rest@);
            match text::strip_suffix(rest, env_suffix) {
                Some(body) => {
                    assert(rest@ =~= body@ + env_suffix@);
                    assert(session@ =~= session_prefix() + body@ + env_suffix@);
                    Some(body)
                },
                None => {
                    assert forall|body: Seq<char>| !is_session_body(
                        session@,
                        env_suffix@,
                        body,
                    ) by {
                        if is_session_body(session@, env_suffix@, body) {
                            assert(rest@ =~= body + env_suffix@);
                            assert(rest@.skip(rest@.len() - env_suffix@.len()) =~= env_suffix@);
                        }
                    }
                    None
                },
            }
        },
        None => {
            assert forall|body: Seq<char>| !is_session_body(session@, env_suffix@, body) by {
                if is_session_body(session@, env_suffix@, body) {
                    assert(session@.take(session_prefix().len() as int) =~= session_prefix());
                }
            }
            None
        },
    }
}

proof fn lemma_body_unique(
    session: Seq<char>,
    env_suffix: Seq<char>,
    body: Seq<char>,
    provider: Seq<char>,
    channel: Seq<char>,
)
    requires
        is_session_body(session, env_suffix, body),
    ensures
        names_session(session, env_suffix, provider, channel) <==> (channel.len() > 0 && body
            == provider + "-"@ + channel),
{
    let p = session_prefix();
    if names_session(session, env_suffix, provider, channel) {
        assert(body =~= session.subrange(p.len() as int, session.len() - env_suffix.len()));
        assert(provider + "-"@ + channel =~= session.subrange(
            p.len() as int,
            session.len() - env_suffix.len(),
        ));
    }
    if channel.len() > 0 && body == provider + "-"@ + channel {
        assert(p + body + env_suffix =~= p + provider + "-"@ + channel + env_suffix);
    }
}

/// The provider and channel name of a session, read strictly: `providers` are the
/// known providers, and `env_suffix` is what the names of this environment end
/// with.
pub fn strictly_parse_provider_and_channel_from_tmux_name(
    session_name: &str,
    env_suffix: &str,
    providers: &Vec<String>,
) -> (r: Option<(String, String)>)
    ensures
        match r {
            Some((provider, channel)) => parses_to(
                session_name@,
                env_suffix@,
                text::texts(providers@),
                provider@,
                channel@,
            ),
            None => reads_as_none(session_name@, env_suffix@, text::texts(providers@)),
        },
{
    let ghost names = text::texts(providers@);
    let body = match session_body(session_name, env_suffix) {
        Some(body) => body,
        None => {
            assert forall|provider: Seq<char>, channel: Seq<char>|
                names.contains(provider) implies !#[trigger] names_session(
                session_name@,
                env_suffix@,
                provider,
                channel,
            ) by {
                if names_session(session_name@, env_suffix@, provider, channel) {
                    let inner = provider + "-"@ + channel;
                    assert(session_prefix() + inner + env_suffix@ =~= session_prefix() + provider
                        + "-"@ + channel + env_suffix@);
                    assert(is_session_body(session_name@, env_suffix@, inner));
                }
            }
            return None;
        },
    };
    let ghost session = session_name@;
    let ghost suffix = env_suffix@;
    let mut best: Option<(String, String)> = None;
    let mut i: usize = 0;
    while i < providers.len()
        invariant
            names == text::texts(providers@),
            i <= providers@.len(),
            session == session_name@,
            suffix == env_suffix@,
            is_session_body(session, suffix, body@),
            match best {
                Some((provider, channel)) => {
                    &&& names.contains(provider@)
                    &&& names_session(session, suffix, provider@, channel@)
                    &&& forall|k: int, rest: Seq<char>|
                        0 <= k < i && #[trigger] names_session(session, suffix, names[k], rest)
                            ==> names[k].len() <= provider@.len()
                },
                None => forall|k: int, rest: Seq<char>|
                    0 <= k < i ==> !#[trigger] names_session(session, suffix, names[k], rest),
            },
        decreases providers@.len() - i,
    {
        let provider = &providers[i];
        assert(names[i as int] == provider@);
        let mut head: String = provider.clone();
        head.append("-");
        let ghost own = provider@;
        match text::strip_prefix(body, head.as_str()) {
            Some(channel) => {
                assert(body@ =~= own + "-"@ + channel@);
                if !channel.is_empty() {
                    proof {
                        lemma_body_unique(session, suffix, body@, own, channel@);
                        assert(names.contains(own));
                    }
                    let better = match &best {
                        Some((held, _)) => provider.as_str().unicode_len()
                            >= held.as_str().unicode_len(),
                        None => true,
                    };
                    if better {
                        best = Some((provider.clone(), channel.to_owned()));
                    }
                } else {
                    proof {
                        assert forall|rest: Seq<char>| !#[trigger] names_session(
                            session,
                            suffix,
                            own,
                            rest,
                        ) by {
                            lemma_body_unique(session, suffix, body@, own, rest);
                            assert((own + "-"@ + rest).len() == own.len() + 1 + rest.len()) by {
                                reveal_strlit("-");
                            }
                            assert((own + "-"@ + channel@).len() == own.len() + 1) by {
                                reveal_strlit("-");
                            }
                        }
                    }
                }
            },
            None => {
                proof {
                    assert forall|rest: Seq<char>| !#[trigger] names_session(
                        session,
                        suffix,
                        own,
                        rest,
                    ) by {
                        lemma_body_unique(session, suffix, body@, own, rest);
                        if names_session(session, suffix, own, rest) {
                            assert(body@.take(head@.len() as int) =~= head@);
                        }
                    }
                }
            },
        }
        i += 1;
    }
    proof {
        match &best {
            Some((provider, _)) => {
                assert forall|other: Seq<char>, rest: Seq<char>|
                    names.contains(other) && #[trigger] names_session(
                        session,
                        suffix,
                        other,
                        rest,
                    ) implies other.len() <= provider@.len() by {
                    let k = names.index_of(other);
                    assert(names_session(session, suffix, names[k], rest));
                }
            },
            None => {
                assert forall|other: Seq<char>, rest: Seq<char>|
                    names.contains(other) implies !#[trigger] names_session(
                    session,
                    suffix,
                    other,
                    rest,
                ) by {
                    let k = names.index_of(other);
                    assert(!names_session(session, suffix, names[k], rest));
                }
            },
        }
    }
    best
}

// ---------------------------------------------------------------------------
// Session roles
// ---------------------------------------------------------------------------
/// Whether a session may be disposed of with the turn that it runs.
#[derive(Debug, Clone, Copy, PartialEq, Eq, Structural)]
pub enum WatcherSessionRole {
    DisposableCurrentThread,
    Protected,
}

/// What the channel names of the thread `channel_id` end with.
pub open spec fn thread_suffix(channel_id: u64) -> Seq<char> {
    "-t"@ + text::decimal(channel_id as nat)
}

/// `channel` is the channel name of the thread `channel_id`: a name, and behind it
/// the thread's suffix once.
pub open spec fn is_thread_channel(channel: Seq<char>, channel_id: u64) -> bool {
    let suffix = thread_suffix(channel_id);
    &&& text::has_suffix(channel, suffix)
    &&& channel.len() > suffix.len()
    &&& !text::has_suffix(channel.take(channel.len() - suffix.len()), "-t"@)
}

fn thread_suffix_text(channel_id: u64) -> (out: String)
    ensures
        out@ == thread_suffix(channel_id),
{
    let mut out: String = "-t".to_owned();
    out.append(text::u64_text(channel_id).as_str());
    out
}

/// The session of the watcher's own provider is that of the thread `channel_id`.
pub open spec fn is_current_thread(
    session: Seq<char>,
    env_suffix: Seq<char>,
    providers: Seq<Seq<char>>,
    watcher_provider: Seq<char>,
    channel_id: u64,
) -> bool {
    exists|channel: Seq<char>| #[trigger]
        parses_to(session, env_suffix, providers, watcher_provider, channel) && is_thread_channel(
            channel,
            channel_id,
        )
}

proof fn lemma_parse_unique(
    session: Seq<char>,
    env_suffix: Seq<char>,
    providers: Seq<Seq<char>>,
    a: (Seq<char>, Seq<char>),
    b: (Seq<char>, Seq<char>),
)
    requires
        parses_to(session, env_suffix, providers, a.0, a.1),
        parses_to(session, env_suffix, providers, b.0, b.1),
    ensures
        a == b,
{
    let p = session_prefix();
    let dash = "-"@;
    assert(names_session(session, env_suffix, a.0, a.1));
    assert(names_session(session, env_suffix, b.0, b.1));
    assert(a.0.len() == b.0.len());
    assert(session == p + a.0 + dash + a.1 + env_suffix);
    assert(session == p + b.0 + dash + b.1 + env_suffix);
    assert(session.len() == p.len() + a.0.len() + dash.len() + a.1.len() + env_suffix.len());
    assert(session.len() == p.len() + b.0.len() + dash.len() + b.1.len() + env_suffix.len());
    let from = p.len() as int;
    assert(a.0 =~= session.subrange(from, from + a.0.len()));
    assert(b.0 =~= session.subrange(from, from + a.0.len()));
    assert(a.1.len() == b.1.len());
    let start = from + a.0.len() + dash.len();
    assert(a.1 =~= session.subrange(start, start + a.1.len()));
    assert(b.1 =~= session.subrange(start, start + a.1.len()));
}

/// What the watcher of `watcher_provider` in the thread `channel_id` may do with a
/// session: it is disposable only if it reads strictly as the session of that very
/// thread, and protected in every other case.
pub fn watcher_session_role(
    tmux_session_name: &str,
    env_suffix: &str,
    providers: &Vec<String>,
    watcher_provider: &str,
    channel_id: u64,
) -> (r: WatcherSessionRole)
    ensures
        r == if is_current_thread(
            tmux_session_name@,
            env_suffix@,
            text::texts(providers@),
            watcher_provider@,
            channel_id,
        ) {
            WatcherSessionRole::DisposableCurrentThread
        } else {
            WatcherSessionRole::Protected
        },
{
    let suffix = thread_suffix_text(channel_id);
    match strictly_parse_provider_and_channel_from_tmux_name(
        tmux_session_name,
        env_suffix,
        providers,
    ) {
        Some((provider, channel)) => {
            proof {
                assert forall|other: Seq<char>|
                    #[trigger] parses_to(
                        tmux_session_name@,
                        env_suffix@,
                        text::texts(providers@),
                        watcher_provider@,
                        other,
                    ) implies provider@ == watcher_provider@ && channel@ == other by {
                    lemma_parse_unique(
                        tmux_session_name@,
                        env_suffix@,
                        text::texts(providers@),
                        (provider@, channel@),
                        (watcher_provider@, other),
                    );
                }
            }
            if !text::same_text(provider.as_str(), watcher_provider) {
                return WatcherSessionRole::Protected;
            }
            match text::strip_suffix(channel.as_str(), suffix.as_str()) {
                Some(front) => {
                    if !front.is_empty() && !text::ends_with(front, "-t") {
                        WatcherSessionRole::DisposableCurrentThread
                    } else {
                        WatcherSessionRole::Protected
                    }
                },
                None => WatcherSessionRole::Protected,
            }
        },
        None => {
            assert forall|other: Seq<char>| !(#[trigger] parses_to(
                tmux_session_name@,
                env_suffix@,
                text::texts(providers@),
                watcher_provider@,
                other,
            )) by {
                assert(text::texts(providers@).contains(watcher_provider@) ==> !names_session(
                    tmux_session_name@,
                    env_suffix@,
                    watcher_provider@,
                    other,
                ));
            }
            WatcherSessionRole::Protected
        },
    }
}

/// Whether a session belongs to the channel's main conversation, which is never
/// killed automatically. `channel_segment` is the channel name that the session
/// name was read to hold; a session whose name cannot be read counts as main.
pub fn watcher_session_is_main_orchestration(channel_segment: Option<&str>, channel_id: u64) -> (r:
    bool)
    ensures
        r == match channel_segment {
            Some(segment) => !text::has_suffix(segment@, thread_suffix(channel_id)),
            None => true,
        },
{
    match channel_segment {
        Some(segment) => !text::ends_with(segment, thread_suffix_text(channel_id).as_str()),
        None => true,
    }
}

/// A session that is disposable is never the main one.
pub proof fn law_disposable_session_is_not_main(channel: Seq<char>, channel_id: u64)
    requires
        is_thread_channel(channel, channel_id),
    ensures
        text::has_suffix(channel, thread_suffix(channel_id)),
{
}

// ---------------------------------------------------------------------------
// Pane identities
// ---------------------------------------------------------------------------
/// The session, pane and process that a kill was authorized for.
#[derive(Debug, PartialEq, Eq)]
pub struct TmuxPaneIdentity {
    pub session_id: String,
    pub pane_id: String,
    pub pane_pid: u32,
}

pub struct PaneView {
    pub session_id: Seq<char>,
    pub pane_id: Seq<char>,
    pub pane_pid: u32,
}

impl View for TmuxPaneIdentity {
    type V = PaneView;

    open spec fn view(&self) -> PaneView {
        PaneView {
            session_id: self.session_id@,
            pane_id: self.pane_id@,
            pane_pid: self.pane_pid,
        }
    }
}

/// The pane that tmux named: its answer without the space around it, if anything is
/// left.
pub fn active_pane_id(answer: &str) -> (r: Option<String>)
    ensures
        text::opt_text(r) == if text::is_blank(answer@) {
            None::<Seq<char>>
        } else {
            Some(text::trimmed(answer@))
        },
{
    if text::blank(answer) {
        None
    } else {
        Some(text::trim(answer).to_owned())
    }
}

/// The identity that `value` spells: a session, a pane and a process number other
/// than zero, with a tab between each two.
pub open spec fn pane_identity(value: Seq<char>) -> Option<PaneView> {
    let fields = text::split_on(text::trimmed(value), '\t');
    if fields.len() == 3 && fields[0].len() > 0 && fields[1].len() > 0 {
        match text::parsed_unsigned(fields[2], u32::MAX as nat) {
            Some(pid) => if pid != 0 {
                Some(
                    PaneView { session_id: fields[0], pane_id: fields[1], pane_pid: pid as u32 },
                )
            } else {
                None
            },
            None => None,
        }
    } else {
        None
    }
}

/// The identity that tmux printed.
pub fn parse_tmux_pane_identity(value: &str) -> (r: Option<TmuxPaneIdentity>)
    ensures
        match r {
            Some(identity) => pane_identity(value@) == Some(identity@),
            None => pane_identity(value@) is None,
        },
{
    let fields = text::split(text::trim(value), '\t');
    let ghost pieces = text::split_on(text::trimmed(value@), '\t');
    assert(fields@.len() == pieces.len());
    if fields.len() != 3 {
        return None;
    }
    assert(fields@[0]@ == pieces[0] && fields@[1]@ == pieces[1] && fields@[2]@ == pieces[2]);
    let pane_pid: u32 = match text::parse_unsigned(fields[2].as_str(), 0xffff_ffff) {
        Some(pid) => pid as u32,
        None => {
            return None;
        },
    };
    if fields[0].as_str().is_empty() || fields[1].as_str().is_empty() || pane_pid == 0 {
        return None;
    }
    Some(
        TmuxPaneIdentity {
            session_id: fields[0].clone(),
            pane_id: fields[1].clone(),
            pane_pid,
        },
    )
}

/// Whether the session still is the one that a kill was authorized for.
pub fn terminal_kill_identity_matches(
    authorized: &TmuxPaneIdentity,
    current: Option<&TmuxPaneIdentity>,
) -> (r: bool)
    ensures
        r == (current matches Some(identity) && identity@ == authorized@),
{
    match current {
        Some(identity) => identity.pane_pid == authorized.pane_pid && identity.session_id
            == authorized.session_id && identity.pane_id == authorized.pane_id,
        None => false,
    }
}

} // verus!
