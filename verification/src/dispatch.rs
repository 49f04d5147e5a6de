//! The update dispatcher: the rules that turn inbound feed envelopes and
//! local UI events into ordered actions — outbound wire messages, waits,
//! wallpaper changes, notifications, or a fatal stop. The driver's event
//! loop performs each action in order; the ordering stated here is the
//! guarantee the rest of the system relies on.

use vstd::prelude::*;
use crate::settings::{Settings, SettingsM};
use crate::text::{chars_to_string, dec_digits, push_dec, push_str_chars};
use crate::wallpaper::{has_extension, spec_has_extension};
use crate::walltaker::{
    check, parse_incoming, spec_check_message, spec_parse_incoming, spec_subscribe_message,
    spec_announce_message, spec_unsubscribe_message, subscribe_to, unsubscribe_from, Incoming,
    IncomingM,
};

verus! {

/// How long the dispatcher waits between re-subscribing and the initial
/// Check, in milliseconds: the server registers subscriptions eventually,
/// not synchronously, so the Check is delayed to give it time. A tunable
/// constant, not a protocol guarantee.
pub const CHECK_DELAY_MS: u64 = 1000;

/// A message from the local settings UI.
#[derive(Debug, PartialEq, Eq, Structural, Clone, Copy)]
pub enum UiMessage {
    /// The user asked for a test notification.
    TestNotification,
    /// The user saved settings; the driver re-applies the display options.
    UpdateSettings,
    /// The user added a feed subscription.
    SubscribeTo(u64),
    /// The user removed a feed subscription.
    UnsubscribeFrom(u64),
}

/// One action the event loop performs, in order.
#[derive(Debug, PartialEq, Eq, Clone)]
pub enum Step {
    /// Send this text over the feed connection.
    Send(String),
    /// Wait this many milliseconds before the next action.
    Sleep(u64),
    /// Fetch the media behind this URL and display it as the wallpaper.
    ShowMedia { url: String },
    /// Show this notification text, best effort.
    Notify { text: String },
    /// Report the reason to the user and stop: the server refused a
    /// reconnect.
    Fatal { reason: String },
}

/// The mathematical value of a [`Step`].
pub enum StepM {
    Send(Seq<char>),
    Sleep(u64),
    ShowMedia { url: Seq<char> },
    Notify { text: Seq<char> },
    Fatal { reason: Seq<char> },
}

impl View for Step {
    type V = StepM;

    open spec fn view(&self) -> StepM {
        match self {
            Step::Send(s) => StepM::Send(s@),
            Step::Sleep(ms) => StepM::Sleep(*ms),
            Step::ShowMedia { url } => StepM::ShowMedia { url: url@ },
            Step::Notify { text } => StepM::Notify { text: text@ },
            Step::Fatal { reason } => StepM::Fatal { reason: reason@ },
        }
    }
}

/// The values of a step sequence.
pub open spec fn steps_view(v: Seq<Step>) -> Seq<StepM> {
    v.map_values(|s: Step| s@)
}

/// The notification text for a wallpaper change: who set it (anonymous
/// when unsigned) and over which feed.
pub open spec fn spec_notification_text(set_by: Option<Seq<char>>, id: u64) -> Seq<char> {
    (match set_by {
        Some(name) => name,
        None => "Anonymous"@,
    }) + " changed your wallpaper via link "@ + dec_digits(id as nat) + "! \u{2764}\u{fe0f}"@
}

/// The notification text shown after a wallpaper change.
pub fn notification_text(set_by: &Option<String>, id: u64) -> (s: String)
    ensures
        s@ == spec_notification_text(crate::walltaker::opt_text(*set_by), id),
{
    let mut v: Vec<char> = Vec::new();
    match set_by {
        Some(name) => push_str_chars(&mut v, name.as_str()),
        None => push_str_chars(&mut v, "Anonymous"),
    }
    push_str_chars(&mut v, " changed your wallpaper via link ");
    push_dec(&mut v, id);
    push_str_chars(&mut v, "! \u{2764}\u{fe0f}");
    proof {
        assert(v@ =~= spec_notification_text(crate::walltaker::opt_text(*set_by), id));
    }
    chars_to_string(&v)
}

/// The Subscribe and Announce the dispatcher sends for one feed id.
pub open spec fn spec_subscribe_steps(id: u64) -> Seq<StepM> {
    seq![
        StepM::Send(spec_subscribe_message(id)),
        StepM::Send(spec_announce_message(id)),
    ]
}

/// The sends a Welcome triggers for the persisted ids, in order: one
/// Subscribe and Announce pair per id.
pub open spec fn spec_welcome_sends(ids: Seq<u64>) -> Seq<StepM>
    decreases ids.len(),
{
    if ids.len() == 0 {
        Seq::empty()
    } else {
        spec_welcome_sends(ids.drop_last()) + spec_subscribe_steps(ids.last())
    }
}

/// Everything a Welcome triggers: the Subscribe and Announce pairs for
/// every persisted id, and — when there is at least one — a delayed Check
/// of the last id in the list, for an immediate initial wallpaper.
pub open spec fn spec_welcome_steps(ids: Seq<u64>) -> Seq<StepM> {
    if ids.len() == 0 {
        Seq::empty()
    } else {
        spec_welcome_sends(ids) + seq![
            StepM::Sleep(CHECK_DELAY_MS),
            StepM::Send(spec_check_message(ids.last())),
        ]
    }
}

/// The actions one decoded envelope produces.
///
/// A keepalive and a subscription acknowledgment produce nothing. A
/// disconnect with `reconnect` set is left to the external reconnect
/// logic; without it, it is fatal. A wallpaper-change event without a
/// media URL is a valid no-op, and one whose URL carries no file
/// extension is recoverable — the medium could be neither cached nor
/// classified — and is skipped; any other update shows the media and,
/// when notifications are on, the notification follows it.
pub open spec fn spec_handle_envelope(st: SettingsM, m: IncomingM) -> Seq<StepM> {
    match m {
        IncomingM::Welcome => spec_welcome_steps(st.subscribed),
        IncomingM::Ping { .. } => Seq::empty(),
        IncomingM::ConfirmSubscription { .. } => Seq::empty(),
        IncomingM::Disconnect { reason, reconnect } => if reconnect {
            Seq::empty()
        } else {
            seq![StepM::Fatal { reason }]
        },
        IncomingM::Message { identifier, message } => match message.post_url {
            None => Seq::empty(),
            Some(url) => if !spec_has_extension(url) {
                Seq::empty()
            } else {
                seq![StepM::ShowMedia { url }] + if st.notifications {
                    seq![
                        StepM::Notify {
                            text: spec_notification_text(message.set_by, message.id),
                        },
                    ]
                } else {
                    Seq::empty()
                }
            },
        },
    }
}

/// Turns one decoded envelope into the actions the event loop performs.
pub fn handle_envelope(settings: &Settings, envelope: &Incoming) -> (steps: Vec<Step>)
    ensures
        steps_view(steps@) == spec_handle_envelope(settings@, envelope@),
{
    let mut steps: Vec<Step> = Vec::new();
    match envelope {
        Incoming::Welcome => {
            let ids = &settings.subscribed;
            let n = ids.len();
            proof {
                assert(ids@.take(0) =~= Seq::<u64>::empty());
            }
            for i in 0..n
                invariant
                    n == ids@.len(),
                    ids@ == settings@.subscribed,
                    steps_view(steps@) =~= spec_welcome_sends(ids@.take(i as int)),
            {
                let ghost prev = steps@;
                let mut pair_msgs = subscribe_to(ids[i]);
                let announce = pair_msgs.pop().unwrap();
                let subscribe = pair_msgs.pop().unwrap();
                steps.push(Step::Send(subscribe));
                steps.push(Step::Send(announce));
                proof {
                    assert(ids@.take(i + 1).drop_last() =~= ids@.take(i as int));
                    assert(ids@.take(i + 1).last() == ids@[i as int]);
                    let ghost target = spec_welcome_sends(ids@.take(i + 1));
                    assert(target == spec_welcome_sends(ids@.take(i as int))
                        + spec_subscribe_steps(ids@[i as int]));
                    assert(steps@ == prev.push(steps@[prev.len() as int]).push(
                        steps@[prev.len() as int + 1],
                    ));
                    assert(steps_view(prev).len() == prev.len());
                    assert forall|j: int| 0 <= j < steps@.len() implies steps_view(steps@)[j]
                        == target[j] by {
                        if j < prev.len() {
                            assert(steps_view(steps@)[j] == steps_view(prev)[j]);
                        } else {
                            assert(steps_view(steps@)[j] == steps@[j]@);
                        }
                    }
                    assert(steps_view(steps@) =~= target);
                }
            }
            proof {
                assert(ids@.take(n as int) =~= ids@);
            }
            if n > 0 {
                let ghost prev = steps@;
                steps.push(Step::Sleep(CHECK_DELAY_MS));
                steps.push(Step::Send(check(ids[n - 1])));
                proof {
                    assert(ids@.last() == ids@[n - 1]);
                    let ghost target = spec_welcome_steps(ids@);
                    assert(steps@ == prev.push(steps@[prev.len() as int]).push(
                        steps@[prev.len() as int + 1],
                    ));
                    assert(steps_view(prev).len() == prev.len());
                    assert forall|j: int| 0 <= j < steps@.len() implies steps_view(steps@)[j]
                        == target[j] by {
                        if j < prev.len() {
                            assert(steps_view(steps@)[j] == steps_view(prev)[j]);
                        } else {
                            assert(steps_view(steps@)[j] == steps@[j]@);
                        }
                    }
                    assert(steps_view(steps@) =~= target);
                }
            }
        },
        Incoming::Ping { .. } => {
        },
        Incoming::ConfirmSubscription { .. } => {
        },
        Incoming::Disconnect { reason, reconnect } => {
            if !*reconnect {
                steps.push(Step::Fatal { reason: reason.clone() });
                proof {
                    assert(steps_view(steps@) =~= spec_handle_envelope(settings@, envelope@));
                }
            }
        },
        Incoming::Message { identifier: _, message } => {
            match &message.post_url {
                None => {
                },
                Some(url) => {
                    if has_extension(url.as_str()) {
                        steps.push(Step::ShowMedia { url: url.clone() });
                        if settings.notifications {
                            let text = notification_text(&message.set_by, message.id);
                            steps.push(Step::Notify { text });
                        }
                        proof {
                            assert(steps_view(steps@) =~= spec_handle_envelope(
                                settings@,
                                envelope@,
                            ));
                        }
                    }
                },
            }
        },
    }
    proof {
        assert(steps_view(steps@) =~= spec_handle_envelope(settings@, envelope@));
    }
    steps
}

/// The actions one UI message produces: a test notification obeys the
/// notification toggle; an added subscription sends its Subscribe and
/// Announce pair; a removed one sends its Unsubscribe; a settings save is
/// re-applied by the driver itself and sends nothing here.
pub open spec fn spec_handle_ui(st: SettingsM, msg: UiMessage) -> Seq<StepM> {
    match msg {
        UiMessage::TestNotification => if st.notifications {
            seq![StepM::Notify { text: spec_notification_text(None, 0) }]
        } else {
            Seq::empty()
        },
        UiMessage::UpdateSettings => Seq::empty(),
        UiMessage::SubscribeTo(id) => spec_subscribe_steps(id),
        UiMessage::UnsubscribeFrom(id) => seq![StepM::Send(spec_unsubscribe_message(id))],
    }
}

/// Turns one UI message into the actions the event loop performs.
pub fn handle_ui_message(settings: &Settings, msg: &UiMessage) -> (steps: Vec<Step>)
    ensures
        steps_view(steps@) == spec_handle_ui(settings@, *msg),
{
    let mut steps: Vec<Step> = Vec::new();
    match msg {
        UiMessage::TestNotification => {
            if settings.notifications {
                let text = notification_text(&None, 0);
                steps.push(Step::Notify { text });
            }
        },
        UiMessage::UpdateSettings => {
        },
        UiMessage::SubscribeTo(id) => {
            let mut pair_msgs = subscribe_to(*id);
            let announce = pair_msgs.pop().unwrap();
            let subscribe = pair_msgs.pop().unwrap();
            steps.push(Step::Send(subscribe));
            steps.push(Step::Send(announce));
        },
        UiMessage::UnsubscribeFrom(id) => {
            steps.push(Step::Send(unsubscribe_from(*id)));
        },
    }
    proof {
        assert(steps_view(steps@) =~= spec_handle_ui(settings@, *msg));
    }
    steps
}

/// What one inbound text makes the loop do: nothing at all when it is
/// malformed, the decoded envelope's actions otherwise.
pub open spec fn spec_handle_text(st: SettingsM, s: Seq<char>) -> Seq<StepM> {
    match spec_parse_incoming(s) {
        None => Seq::empty(),
        Some(m) => spec_handle_envelope(st, m),
    }
}

/// Handles one inbound wire text: a text that fails to parse or decode is
/// dropped and produces nothing.
pub fn handle_text(settings: &Settings, text: &str) -> (steps: Vec<Step>)
    ensures
        steps_view(steps@) == spec_handle_text(settings@, text@),
{
    match parse_incoming(text) {
        None => {
            let steps: Vec<Step> = Vec::new();
            proof {
                assert(steps_view(steps@) =~= spec_handle_text(settings@, text@));
            }
            steps
        },
        Some(envelope) => handle_envelope(settings, &envelope),
    }
}

/// What a whole sequence of inbound texts makes the loop do, in order.
pub open spec fn spec_handle_many(st: SettingsM, texts: Seq<Seq<char>>) -> Seq<StepM>
    decreases texts.len(),
{
    if texts.len() == 0 {
        Seq::empty()
    } else {
        spec_handle_many(st, texts.drop_last()) + spec_handle_text(st, texts.last())
    }
}

/// Handles a run of inbound wire texts in arrival order, as the read loop
/// does.
pub fn handle_texts(settings: &Settings, texts: &Vec<String>) -> (steps: Vec<Step>)
    ensures
        steps_view(steps@) == spec_handle_many(
            settings@,
            texts@.map_values(|t: String| t@),
        ),
{
    let mut steps: Vec<Step> = Vec::new();
    let n = texts.len();
    let ghost texts_m = texts@.map_values(|t: String| t@);
    proof {
        assert(texts_m.take(0) =~= Seq::<Seq<char>>::empty());
    }
    for i in 0..n
        invariant
            n == texts@.len(),
            texts_m == texts@.map_values(|t: String| t@),
            texts_m.len() == n,
            steps_view(steps@) =~= spec_handle_many(settings@, texts_m.take(i as int)),
    {
        let ghost prev = steps@;
        let mut more = handle_text(settings, texts[i].as_str());
        let ghost added = more@;
        steps.append(&mut more);
        proof {
            assert(texts_m.take(i + 1).drop_last() =~= texts_m.take(i as int));
            assert(texts_m.take(i + 1).last() == texts_m[i as int]);
            assert(texts_m[i as int] == texts@[i as int]@);
            let ghost target = spec_handle_many(settings@, texts_m.take(i + 1));
            assert(target == spec_handle_many(settings@, texts_m.take(i as int))
                + spec_handle_text(settings@, texts_m[i as int]));
            assert(steps@ == prev + added);
            assert(steps_view(prev).len() == prev.len());
            assert(steps_view(added).len() == added.len());
            assert forall|j: int| 0 <= j < steps@.len() implies steps_view(steps@)[j] == target[j]
                by {
                if j < prev.len() {
                    assert(steps@[j] == prev[j]);
                    assert(steps_view(steps@)[j] == steps_view(prev)[j]);
                } else {
                    assert(steps@[j] == added[j - prev.len()]);
                    assert(steps_view(steps@)[j] == steps_view(added)[j - prev.len()]);
                }
            }
            assert(steps_view(steps@) =~= target);
        }
    }
    proof {
        assert(texts_m.take(n as int) =~= texts_m);
    }
    steps
}

/// A malformed inbound text is inert: it produces no actions, and a run of
/// texts with a malformed one in front does exactly what the run without
/// it does — the read loop survives it and handles what follows.
pub proof fn lemma_malformed_is_inert(st: SettingsM, bad: Seq<char>, rest: Seq<Seq<char>>)
    requires
        spec_parse_incoming(bad) is None,
    ensures
        spec_handle_text(st, bad) == Seq::<StepM>::empty(),
        spec_handle_many(st, seq![bad] + rest) == spec_handle_many(st, rest),
    decreases rest.len(),
{
    if rest.len() == 0 {
        reveal_with_fuel(spec_handle_many, 2);
        assert((seq![bad] + rest).drop_last() =~= Seq::<Seq<char>>::empty());
        assert((seq![bad] + rest).last() == bad);
        assert(spec_handle_many(st, Seq::<Seq<char>>::empty()) =~= Seq::<StepM>::empty());
        assert(rest =~= Seq::<Seq<char>>::empty());
        assert(spec_handle_many(st, seq![bad] + rest) =~= Seq::<StepM>::empty());
    } else {
        lemma_malformed_is_inert(st, bad, rest.drop_last());
        assert((seq![bad] + rest).drop_last() =~= seq![bad] + rest.drop_last());
        assert((seq![bad] + rest).last() == rest.last());
    }
}

/// The shape of the sends a Welcome triggers: two sends per persisted id,
/// the Subscribe then the Announce of that id, in list order.
pub proof fn lemma_welcome_sends_shape(ids: Seq<u64>)
    ensures
        spec_welcome_sends(ids).len() == 2 * ids.len(),
        forall|k: int|
            0 <= k < ids.len() ==> spec_welcome_sends(ids)[2 * k] == StepM::Send(
                spec_subscribe_message(ids[k]),
            ),
        forall|k: int|
            0 <= k < ids.len() ==> spec_welcome_sends(ids)[2 * k + 1] == StepM::Send(
                spec_announce_message(ids[k]),
            ),
    decreases ids.len(),
{
    if ids.len() > 0 {
        lemma_welcome_sends_shape(ids.drop_last());
        assert(forall|k: int|
            0 <= k < ids.len() - 1 ==> ids.drop_last()[k] == ids[k]);
    }
}

/// A Welcome with persisted ids produces exactly one Subscribe and
/// Announce pair per id, in list order, followed by exactly one delayed
/// Check of the last id and nothing else.
pub proof fn lemma_welcome_pairs_then_check(st: SettingsM)
    requires
        st.subscribed.len() > 0,
    ensures
        ({
            let steps = spec_handle_envelope(st, IncomingM::Welcome);
            let n = st.subscribed.len();
            steps.len() == 2 * n + 2 && (forall|k: int|
                0 <= k < n ==> steps[2 * k] == StepM::Send(
                    spec_subscribe_message(st.subscribed[k]),
                )) && (forall|k: int|
                0 <= k < n ==> steps[2 * k + 1] == StepM::Send(
                    spec_announce_message(st.subscribed[k]),
                )) && steps[2 * n as int] == StepM::Sleep(CHECK_DELAY_MS) && steps[2 * n as int
                + 1] == StepM::Send(spec_check_message(st.subscribed.last()))
        }),
{
    lemma_welcome_sends_shape(st.subscribed);
}

/// A wallpaper-change event without a media URL produces no actions at
/// all: it is a valid no-op, not an error.
pub proof fn lemma_absent_url_is_noop(st: SettingsM, m: IncomingM)
    requires
        m matches IncomingM::Message { message, .. } && message.post_url is None,
    ensures
        spec_handle_envelope(st, m) == Seq::<StepM>::empty(),
{
}

/// A wallpaper-change event whose media URL carries no file extension is
/// recoverable: the event is skipped whole and produces no actions — no
/// wallpaper change, no notification — and the loop goes on.
pub proof fn lemma_extensionless_url_is_skipped(st: SettingsM, m: IncomingM)
    requires
        m matches IncomingM::Message { message, .. } && message.post_url matches Some(url)
            && !spec_has_extension(url),
    ensures
        spec_handle_envelope(st, m) == Seq::<StepM>::empty(),
{
}

} // verus!
