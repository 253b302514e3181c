//! The BotFather panel of a room: choosing the bot and the sender a room is bound to,
//! deciding what a click on "Bind Room" does, and what the streamed bot preview shows.
use vstd::prelude::*;

use crate::call_state::clone_opt_string;
use crate::sender::SenderProfileKind;
use crate::text::{concat, first_id_index, index_of_str, is_blank, owned, str_is_blank};

verus! {

/// A bot the room can be bound to, as the bot dropdown lists it.
pub struct BotChoice {
    pub bot_id: String,
    pub label: String,
}

/// A sender profile, as the sender dropdown lists it.
pub struct SenderChoice {
    pub sender_profile_id: String,
    pub label: String,
    pub kind: SenderProfileKind,
}

/// What a dropdown shows: its labels and the selected entry.
pub struct SelectorView {
    pub labels: Vec<String>,
    pub selected_index: usize,
}

/// The entry a dropdown over `ids` selects: the position of `primary` when it is
/// listed, else the first entry.
pub open spec fn selector_index(ids: Seq<String>, primary: Option<&str>) -> int {
    match primary {
        Some(p) => match first_id_index(ids, p@) {
            Some(i) => i,
            None => 0,
        },
        None => 0,
    }
}

/// Whether `ids` lists the bot ids of `options`, in order.
pub open spec fn lists_bots(ids: Seq<String>, options: Seq<BotChoice>) -> bool {
    ids.len() == options.len() && forall|i: int| 0 <= i < ids.len() ==> #[trigger] ids[i]@
        == options[i].bot_id@
}

/// Whether `labels` lists the labels of `options`, in order.
pub open spec fn lists_bot_labels(labels: Seq<String>, options: Seq<BotChoice>) -> bool {
    labels.len() == options.len() && forall|i: int| 0 <= i < labels.len() ==> #[trigger] labels[i]@
        == options[i].label@
}

/// Whether `ids` lists the profile ids of `options`, in order.
pub open spec fn lists_senders(ids: Seq<String>, options: Seq<SenderChoice>) -> bool {
    ids.len() == options.len() && forall|i: int| 0 <= i < ids.len() ==> #[trigger] ids[i]@
        == options[i].sender_profile_id@
}

/// Whether `labels` lists the labels of `options`, in order.
pub open spec fn lists_sender_labels(labels: Seq<String>, options: Seq<SenderChoice>) -> bool {
    labels.len() == options.len() && forall|i: int| 0 <= i < labels.len() ==> #[trigger] labels[i]@
        == options[i].label@
}

/// The state of a stream preview.
#[derive(Clone, Copy, PartialEq, Eq, Structural, Debug)]
pub enum BotStreamPreviewStatus {
    Idle,
    Queued,
    Streaming,
    Finished,
    Failed,
    Cancelled,
}

/// The streamed reply of a bot that has not been posted yet.
pub struct BotStreamPreview {
    pub status: BotStreamPreviewStatus,
    pub detail: String,
    pub bot_name: String,
    pub text: String,
    pub can_post: bool,
}

/// What the preview card shows.
pub struct PreviewDisplay {
    pub status_text: String,
    pub body: String,
    pub post_enabled: bool,
    pub clear_enabled: bool,
}

/// The status line of a preview.
pub open spec fn preview_status_text(p: BotStreamPreview) -> Seq<char> {
    match p.status {
        BotStreamPreviewStatus::Idle => p.detail@,
        BotStreamPreviewStatus::Queued => "Queued. "@ + p.detail@,
        BotStreamPreviewStatus::Streaming => "Streaming "@ + p.bot_name@ + "..."@,
        BotStreamPreviewStatus::Finished => "Finished. "@ + p.detail@,
        BotStreamPreviewStatus::Failed => "Failed. "@ + p.detail@,
        BotStreamPreviewStatus::Cancelled => p.detail@,
    }
}

/// The status line of an empty preview card.
pub open spec fn msg_no_preview() -> Seq<char> {
    "No streamed preview yet."@
}

/// What the preview card shows for `preview`; with none, the card is cleared and both
/// buttons are disabled.
pub fn preview_display(preview: Option<&BotStreamPreview>) -> (r: PreviewDisplay)
    ensures
        match preview {
            Some(p) => {
                &&& r.status_text@ == preview_status_text(*p)
                &&& r.body@ == p.text@
                &&& r.post_enabled == p.can_post
                &&& r.clear_enabled == (!is_blank(p.text@) || p.status
                    != BotStreamPreviewStatus::Idle)
            },
            None => {
                &&& r.status_text@ == msg_no_preview()
                &&& r.body@.len() == 0
                &&& !r.post_enabled
                &&& !r.clear_enabled
            },
        },
{
    match preview {
        Some(p) => {
            let status_text = match p.status {
                BotStreamPreviewStatus::Idle => p.detail.clone(),
                BotStreamPreviewStatus::Queued => concat("Queued. ", p.detail.as_str()),
                BotStreamPreviewStatus::Streaming => {
                    let mut t = concat("Streaming ", p.bot_name.as_str());
                    t.append("...");
                    t
                },
                BotStreamPreviewStatus::Finished => concat("Finished. ", p.detail.as_str()),
                BotStreamPreviewStatus::Failed => concat("Failed. ", p.detail.as_str()),
                BotStreamPreviewStatus::Cancelled => p.detail.clone(),
            };
            PreviewDisplay {
                status_text,
                body: p.text.clone(),
                post_enabled: p.can_post,
                clear_enabled: !str_is_blank(p.text.as_str()) || p.status
                    != BotStreamPreviewStatus::Idle,
            }
        },
        None => PreviewDisplay {
            status_text: owned("No streamed preview yet."),
            body: String::new(),
            post_enabled: false,
            clear_enabled: false,
        },
    }
}

/// The status line names the state of the stream: a failed stream reads "Failed. ", a
/// finished one "Finished. " and a queued one "Queued. ", each followed by the preview's
/// detail; a streaming one reads "Streaming " and the bot's name followed by "...";
/// an idle or cancelled one shows the detail alone.
pub proof fn law_preview_status_line(p: BotStreamPreview)
    ensures
        p.status == BotStreamPreviewStatus::Failed ==> preview_status_text(p) == seq![
            'F',
            'a',
            'i',
            'l',
            'e',
            'd',
            '.',
            ' ',
        ] + p.detail@,
        p.status == BotStreamPreviewStatus::Finished ==> preview_status_text(p) == seq![
            'F',
            'i',
            'n',
            'i',
            's',
            'h',
            'e',
            'd',
            '.',
            ' ',
        ] + p.detail@,
        p.status == BotStreamPreviewStatus::Queued ==> preview_status_text(p) == seq![
            'Q',
            'u',
            'e',
            'u',
            'e',
            'd',
            '.',
            ' ',
        ] + p.detail@,
        p.status == BotStreamPreviewStatus::Streaming ==> preview_status_text(p) == seq![
            'S',
            't',
            'r',
            'e',
            'a',
            'm',
            'i',
            'n',
            'g',
            ' ',
        ] + p.bot_name@ + seq!['.', '.', '.'],
        p.status == BotStreamPreviewStatus::Idle ==> preview_status_text(p) == p.detail@,
        p.status == BotStreamPreviewStatus::Cancelled ==> preview_status_text(p) == p.detail@,
{
    reveal_strlit("Failed. ");
    reveal_strlit("Finished. ");
    reveal_strlit("Queued. ");
    reveal_strlit("Streaming ");
    reveal_strlit("...");
    assert("Failed. "@ =~= seq!['F', 'a', 'i', 'l', 'e', 'd', '.', ' ']);
    assert("Finished. "@ =~= seq!['F', 'i', 'n', 'i', 's', 'h', 'e', 'd', '.', ' ']);
    assert("Queued. "@ =~= seq!['Q', 'u', 'e', 'u', 'e', 'd', '.', ' ']);
    assert("Streaming "@ =~= seq!['S', 't', 'r', 'e', 'a', 'm', 'i', 'n', 'g', ' ']);
    assert("..."@ =~= seq!['.', '.', '.']);
}

/// A failed stream and a finished one never show the same status line, whatever their
/// details: the first says it failed, the second that it finished.
pub proof fn law_failed_not_reported_finished(p: BotStreamPreview, q: BotStreamPreview)
    requires
        p.status == BotStreamPreviewStatus::Failed,
        q.status == BotStreamPreviewStatus::Finished,
    ensures
        preview_status_text(p) != preview_status_text(q),
        preview_status_text(p)[1] == 'a',
        preview_status_text(q)[1] == 'i',
{
    law_preview_status_line(p);
    law_preview_status_line(q);
    assert(preview_status_text(p)[1] == 'a');
    assert(preview_status_text(q)[1] == 'i');
}

/// What a click on "Bind Room" does.
pub enum BindDecision {
    /// The room has not finished loading.
    RoomNotReady,
    /// No bot is selected.
    PickBotFirst,
    /// The selected sender is not set up; its setup guidance is shown.
    SenderNotReady { profile_id: String },
    /// The room moves from the user's own account to a shared bot sender; the user
    /// confirms first.
    ConfirmSwitchToShared { room_id: String, bot_id: String, sender_profile_id: Option<String> },
    /// The room is bound at once.
    Bind { room_id: String, bot_id: String, sender_profile_id: Option<String> },
}

/// The status line for a room that is not ready.
pub open spec fn msg_room_not_ready() -> Seq<char> {
    "This room is not ready for BotFather yet."@
}

/// The status line for a bind without a selected bot.
pub open spec fn msg_pick_bot() -> Seq<char> {
    "Pick a bot from the Room Bot dropdown before binding the room."@
}

/// The status line while the switch to a shared sender awaits confirmation.
pub open spec fn msg_confirm_switch() -> Seq<char> {
    "Confirm the sender switch to move this room from personal assist to shared bot mode."@
}

/// The status line after removing the room's binding.
pub open spec fn msg_unbound() -> Seq<char> {
    "Removed the room-level bot override."@
}

impl BindDecision {
    /// The status line this decision shows, where it is fixed: a sender that is not
    /// ready shows its own guidance, and a bind shows what binding reports.
    pub fn status_text(&self) -> (r: Option<&'static str>)
        ensures
            *self is RoomNotReady ==> (r matches Some(t) && t@ == msg_room_not_ready()),
            *self is PickBotFirst ==> (r matches Some(t) && t@ == msg_pick_bot()),
            *self is ConfirmSwitchToShared ==> (r matches Some(t) && t@ == msg_confirm_switch()),
            *self is SenderNotReady || *self is Bind ==> r is None,
    {
        match self {
            BindDecision::RoomNotReady => Some("This room is not ready for BotFather yet."),
            BindDecision::PickBotFirst => Some(
                "Pick a bot from the Room Bot dropdown before binding the room.",
            ),
            BindDecision::ConfirmSwitchToShared { .. } => Some(
                "Confirm the sender switch to move this room from personal assist to shared bot mode.",
            ),
            _ => None,
        }
    }
}

/// What a click on "Post" does with the preview.
pub enum PostPreviewDecision {
    RoomNotReady,
    /// There is no finished preview with text for this room or thread.
    NothingToPost,
    /// The room sends with the user's own account: post through the primary client.
    PostDirectly(String),
    /// The room has a bot sender: post through it.
    PostViaSender(String),
}

/// What a click on "Post" does: `preview_text` is the text of the room's preview, if
/// it has one, and `uses_current_user_sender` whether the room sends with the user's
/// own account. Blank text is not posted.
pub fn post_preview_decision(
    room_known: bool,
    preview_text: Option<&str>,
    uses_current_user_sender: bool,
) -> (r: PostPreviewDecision)
    ensures
        !room_known ==> r is RoomNotReady,
        room_known && (preview_text is None || is_blank(preview_text->0@)) ==> r is NothingToPost,
        room_known && preview_text is Some && !is_blank(preview_text->0@) ==> (if uses_current_user_sender {
            r matches PostPreviewDecision::PostDirectly(t) && t@ == preview_text->0@
        } else {
            r matches PostPreviewDecision::PostViaSender(t) && t@ == preview_text->0@
        }),
{
    if !room_known {
        return PostPreviewDecision::RoomNotReady;
    }
    match preview_text {
        Some(t) => if str_is_blank(t) {
            PostPreviewDecision::NothingToPost
        } else if uses_current_user_sender {
            PostPreviewDecision::PostDirectly(owned(t))
        } else {
            PostPreviewDecision::PostViaSender(owned(t))
        },
        None => PostPreviewDecision::NothingToPost,
    }
}

/// The status line a finished health check shows: its message or its error, when it
/// concerns the room the panel shows.
pub fn healthcheck_status(current_room_id: Option<&str>, room_id: &str, result: &Result<
    String,
    String,
>) -> (r: Option<String>)
    ensures
        (current_room_id matches Some(c) && c@ == room_id@) ==> match result {
            Ok(m) => r matches Some(t) && t@ == m@,
            Err(e) => r matches Some(t) && t@ == e@,
        },
        !(current_room_id matches Some(c) && c@ == room_id@) ==> r is None,
{
    if !concerns_room(current_room_id, room_id) {
        return None;
    }
    match result {
        Ok(m) => Some(m.clone()),
        Err(e) => Some(e.clone()),
    }
}

/// Whether an event about `room_id` concerns the room the panel shows.
pub fn concerns_room(current_room_id: Option<&str>, room_id: &str) -> (r: bool)
    ensures
        r == (current_room_id matches Some(c) && c@ == room_id@),
{
    match current_room_id {
        Some(c) => crate::text::str_eq(c, room_id),
        None => false,
    }
}

/// What the BotFather panel of a room reports: its close button asks the room screen to
/// close the panel.
#[derive(Clone, Copy, PartialEq, Eq, Structural, Debug)]
pub enum BotfatherRoomPanelAction {
    CloseRequested,
    Nothing,
}

/// The state of the BotFather panel of a room.
pub struct BotfatherRoomPanel {
    /// The bots the bot dropdown lists, by id.
    pub bot_choice_ids: Vec<String>,
    pub selected_bot_id: Option<String>,
    /// The senders the sender dropdown lists, by profile id.
    pub sender_choice_ids: Vec<String>,
    pub selected_sender_profile_id: Option<String>,
    /// The room the panel last showed.
    pub rendered_room_id: Option<String>,
}

impl BotfatherRoomPanel {
    /// A panel with nothing listed or selected.
    pub fn new() -> (r: Self)
        ensures
            r.bot_choice_ids@.len() == 0,
            r.selected_bot_id is None,
            r.sender_choice_ids@.len() == 0,
            r.selected_sender_profile_id is None,
            r.rendered_room_id is None,
    {
        BotfatherRoomPanel {
            bot_choice_ids: Vec::new(),
            selected_bot_id: None,
            sender_choice_ids: Vec::new(),
            selected_sender_profile_id: None,
            rendered_room_id: None,
        }
    }

    /// Fills the bot dropdown for the room `room_id` from its bot `options`, selecting
    /// the room's primary bot when it is listed, else the first.
    ///
    /// Without a room, or without options, the dropdown shows one placeholder ("Room
    /// unavailable" or "No bots configured") and nothing is selected.
    pub fn update_bot_selector(
        &mut self,
        room_id: Option<&str>,
        options: &Vec<BotChoice>,
        primary_bot_id: Option<&str>,
    ) -> (r: SelectorView)
        ensures
            final(self).sender_choice_ids@ == old(self).sender_choice_ids@,
            final(self).selected_sender_profile_id == old(self).selected_sender_profile_id,
            final(self).rendered_room_id == old(self).rendered_room_id,
            room_id is None || options@.len() == 0 ==> {
                &&& final(self).bot_choice_ids@.len() == 0
                &&& final(self).selected_bot_id is None
                &&& r.labels@.len() == 1
                &&& r.labels@[0]@ == if room_id is Some {
                    "No bots configured"@
                } else {
                    "Room unavailable"@
                }
                &&& r.selected_index == 0
            },
            room_id is Some && options@.len() > 0 ==> {
                &&& lists_bots(final(self).bot_choice_ids@, options@)
                &&& lists_bot_labels(r.labels@, options@)
                &&& r.selected_index == selector_index(final(self).bot_choice_ids@, primary_bot_id)
                &&& final(self).selected_bot_id == Some(
                    final(self).bot_choice_ids@[r.selected_index as int],
                )
            },
    {
        if room_id.is_none() || options.len() == 0 {
            self.bot_choice_ids = Vec::new();
            self.selected_bot_id = None;
            let placeholder = if room_id.is_some() {
                owned("No bots configured")
            } else {
                owned("Room unavailable")
            };
            let mut labels: Vec<String> = Vec::new();
            labels.push(placeholder);
            return SelectorView { labels, selected_index: 0 };
        }
        let mut ids: Vec<String> = Vec::new();
        let mut labels: Vec<String> = Vec::new();
        let mut i: usize = 0;
        while i < options.len()
            invariant
                i <= options@.len(),
                ids@.len() == i,
                labels@.len() == i,
                forall|j: int| 0 <= j < i ==> #[trigger] ids@[j]@ == options@[j].bot_id@,
                forall|j: int| 0 <= j < i ==> #[trigger] labels@[j]@ == options@[j].label@,
            decreases options@.len() - i,
        {
            ids.push(options[i].bot_id.clone());
            labels.push(options[i].label.clone());
            i = i + 1;
        }
        let selected_index = match primary_bot_id {
            Some(p) => match index_of_str(&ids, p) {
                Some(j) => j,
                None => 0,
            },
            None => 0,
        };
        self.selected_bot_id = Some(ids[selected_index].clone());
        self.bot_choice_ids = ids;
        SelectorView { labels, selected_index }
    }

    /// Fills the sender dropdown from the sender `options`, selecting the room's primary
    /// sender when it is listed, else the first. Without options the dropdown shows
    /// "No senders configured" and nothing is selected.
    pub fn update_sender_selector(
        &mut self,
        options: &Vec<SenderChoice>,
        primary_sender_profile_id: Option<&str>,
    ) -> (r: SelectorView)
        ensures
            final(self).bot_choice_ids@ == old(self).bot_choice_ids@,
            final(self).selected_bot_id == old(self).selected_bot_id,
            final(self).rendered_room_id == old(self).rendered_room_id,
            options@.len() == 0 ==> {
                &&& final(self).sender_choice_ids@.len() == 0
                &&& final(self).selected_sender_profile_id is None
                &&& r.labels@.len() == 1
                &&& r.labels@[0]@ == "No senders configured"@
                &&& r.selected_index == 0
            },
            options@.len() > 0 ==> {
                &&& lists_senders(final(self).sender_choice_ids@, options@)
                &&& lists_sender_labels(r.labels@, options@)
                &&& r.selected_index == selector_index(
                    final(self).sender_choice_ids@,
                    primary_sender_profile_id,
                )
                &&& final(self).selected_sender_profile_id == Some(
                    final(self).sender_choice_ids@[r.selected_index as int],
                )
            },
    {
        if options.len() == 0 {
            self.sender_choice_ids = Vec::new();
            self.selected_sender_profile_id = None;
            let mut labels: Vec<String> = Vec::new();
            labels.push(owned("No senders configured"));
            return SelectorView { labels, selected_index: 0 };
        }
        let mut ids: Vec<String> = Vec::new();
        let mut labels: Vec<String> = Vec::new();
        let mut i: usize = 0;
        while i < options.len()
            invariant
                i <= options@.len(),
                ids@.len() == i,
                labels@.len() == i,
                forall|j: int| 0 <= j < i ==> #[trigger] ids@[j]@ == options@[j].sender_profile_id@,
                forall|j: int| 0 <= j < i ==> #[trigger] labels@[j]@ == options@[j].label@,
            decreases options@.len() - i,
        {
            ids.push(options[i].sender_profile_id.clone());
            labels.push(options[i].label.clone());
            i = i + 1;
        }
        let selected_index = match primary_sender_profile_id {
            Some(p) => match index_of_str(&ids, p) {
                Some(j) => j,
                None => 0,
            },
            None => 0,
        };
        self.selected_sender_profile_id = Some(ids[selected_index].clone());
        self.sender_choice_ids = ids;
        SelectorView { labels, selected_index }
    }

    /// Selects the room's primary bot again after its binding changed; returns the entry
    /// the dropdown is to show, or `None` to leave it as it is.
    ///
    /// Without a room nothing changes. Without a primary bot the first listed bot is
    /// selected. A primary bot that is not listed changes nothing.
    pub fn sync_selected_bot(&mut self, room_id: Option<&str>, primary_bot_id: Option<&str>) -> (r:
        Option<usize>)
        ensures
            final(self).bot_choice_ids@ == old(self).bot_choice_ids@,
            final(self).sender_choice_ids@ == old(self).sender_choice_ids@,
            final(self).selected_sender_profile_id == old(self).selected_sender_profile_id,
            final(self).rendered_room_id == old(self).rendered_room_id,
            room_id is None ==> r is None && final(self).selected_bot_id == old(self).selected_bot_id,
            room_id is Some && primary_bot_id is None ==> r == Some(0usize) && final(self).selected_bot_id == if old(self).bot_choice_ids@.len() > 0 {
                Some(old(self).bot_choice_ids@[0])
            } else {
                None
            },
            room_id is Some && primary_bot_id is Some ==> match first_id_index(
                old(self).bot_choice_ids@,
                primary_bot_id->0@,
            ) {
                Some(i) => r == Some(i as usize) && (final(self).selected_bot_id matches Some(
                    b,
                ) && b@ == primary_bot_id->0@),
                None => r is None && final(self).selected_bot_id == old(self).selected_bot_id,
            },
    {
        if room_id.is_none() {
            return None;
        }
        match primary_bot_id {
            None => {
                self.selected_bot_id = if self.bot_choice_ids.len() > 0 {
                    Some(self.bot_choice_ids[0].clone())
                } else {
                    None
                };
                Some(0)
            },
            Some(p) => match index_of_str(&self.bot_choice_ids, p) {
                Some(i) => {
                    self.selected_bot_id = Some(owned(p));
                    Some(i)
                },
                None => None,
            },
        }
    }

    /// Selects the room's primary sender again after its binding changed; returns the
    /// entry the dropdown is to show, or `None` to leave it as it is. It follows the same
    /// rules as [`sync_selected_bot`](Self::sync_selected_bot).
    pub fn sync_selected_sender(
        &mut self,
        room_id: Option<&str>,
        primary_sender_profile_id: Option<&str>,
    ) -> (r: Option<usize>)
        ensures
            final(self).bot_choice_ids@ == old(self).bot_choice_ids@,
            final(self).selected_bot_id == old(self).selected_bot_id,
            final(self).sender_choice_ids@ == old(self).sender_choice_ids@,
            final(self).rendered_room_id == old(self).rendered_room_id,
            room_id is None ==> r is None && final(self).selected_sender_profile_id == old(self).selected_sender_profile_id,
            room_id is Some && primary_sender_profile_id is None ==> r == Some(0usize) && final(self).selected_sender_profile_id == if old(self).sender_choice_ids@.len() > 0 {
                Some(old(self).sender_choice_ids@[0])
            } else {
                None
            },
            room_id is Some && primary_sender_profile_id is Some ==> match first_id_index(
                old(self).sender_choice_ids@,
                primary_sender_profile_id->0@,
            ) {
                Some(i) => r == Some(i as usize) && (final(self).selected_sender_profile_id matches Some(s) && s@
                    == primary_sender_profile_id->0@),
                None => r is None && final(self).selected_sender_profile_id == old(self).selected_sender_profile_id,
            },
    {
        if room_id.is_none() {
            return None;
        }
        match primary_sender_profile_id {
            None => {
                self.selected_sender_profile_id = if self.sender_choice_ids.len() > 0 {
                    Some(self.sender_choice_ids[0].clone())
                } else {
                    None
                };
                Some(0)
            },
            Some(p) => match index_of_str(&self.sender_choice_ids, p) {
                Some(i) => {
                    self.selected_sender_profile_id = Some(owned(p));
                    Some(i)
                },
                None => None,
            },
        }
    }

    /// Takes the pick of entry `index` in the bot dropdown; returns the status line to
    /// show, if any.
    pub fn bot_selected(&mut self, index: usize) -> (r: Option<String>)
        ensures
            final(self).bot_choice_ids@ == old(self).bot_choice_ids@,
            final(self).sender_choice_ids@ == old(self).sender_choice_ids@,
            final(self).selected_sender_profile_id == old(self).selected_sender_profile_id,
            final(self).rendered_room_id == old(self).rendered_room_id,
            index < old(self).bot_choice_ids@.len() ==> {
                let id = old(self).bot_choice_ids@[index as int];
                &&& final(self).selected_bot_id == Some(id)
                &&& r matches Some(t) && t@ == "Selected \""@ + id@
                    + "\". Click Bind Room to apply it."@
            },
            index >= old(self).bot_choice_ids@.len() ==> final(self).selected_bot_id == old(self).selected_bot_id,
            old(self).bot_choice_ids@.len() == 0 ==> (r matches Some(t) && t@
                == "Configure at least one bot in BotFather Settings first."@),
            index >= old(self).bot_choice_ids@.len() && old(self).bot_choice_ids@.len() > 0
                ==> r is None,
    {
        if index < self.bot_choice_ids.len() {
            let id = self.bot_choice_ids[index].clone();
            let mut t = concat("Selected \"", id.as_str());
            t.append("\". Click Bind Room to apply it.");
            self.selected_bot_id = Some(id);
            Some(t)
        } else if self.bot_choice_ids.len() == 0 {
            Some(owned("Configure at least one bot in BotFather Settings first."))
        } else {
            None
        }
    }

    /// Takes the pick of entry `index` in the sender dropdown; returns the status line to
    /// show, if any.
    pub fn sender_selected(&mut self, index: usize) -> (r: Option<String>)
        ensures
            final(self).bot_choice_ids@ == old(self).bot_choice_ids@,
            final(self).selected_bot_id == old(self).selected_bot_id,
            final(self).sender_choice_ids@ == old(self).sender_choice_ids@,
            final(self).rendered_room_id == old(self).rendered_room_id,
            index < old(self).sender_choice_ids@.len() ==> {
                let id = old(self).sender_choice_ids@[index as int];
                &&& final(self).selected_sender_profile_id == Some(id)
                &&& r matches Some(t) && t@ == "Selected sender \""@ + id@
                    + "\". Click Bind Room to apply it."@
            },
            index >= old(self).sender_choice_ids@.len() ==> r is None && final(self).selected_sender_profile_id == old(self).selected_sender_profile_id,
    {
        if index < self.sender_choice_ids.len() {
            let id = self.sender_choice_ids[index].clone();
            let mut t = concat("Selected sender \"", id.as_str());
            t.append("\". Click Bind Room to apply it.");
            self.selected_sender_profile_id = Some(id);
            Some(t)
        } else {
            None
        }
    }

    /// What a click on "Bind Room" does in the room `room_id`.
    ///
    /// `sender_ready` tells whether the selected sender is set up, `sender_kind` the kind
    /// of the selected sender when it is known, and `room_is_personal_assist` whether the
    /// room now sends with the user's own account. A sender that is not ready stops the
    /// bind; moving a personal-assist room to a sender that is not the current user asks
    /// for confirmation first.
    pub fn bind_room_decision(
        &self,
        room_id: Option<&str>,
        sender_ready: bool,
        sender_kind: Option<SenderProfileKind>,
        room_is_personal_assist: bool,
    ) -> (r: BindDecision)
        ensures
            room_id is None ==> r is RoomNotReady,
            room_id is Some && self.selected_bot_id is None ==> r is PickBotFirst,
            room_id is Some && self.selected_bot_id is Some && self.selected_sender_profile_id is Some
                && !sender_ready ==> (r matches BindDecision::SenderNotReady { profile_id }
                && profile_id == self.selected_sender_profile_id->0),
            room_id is Some && self.selected_bot_id is Some && (self.selected_sender_profile_id is None
                || sender_ready) ==> {
                let switching = room_is_personal_assist && (sender_kind matches Some(k) && k
                    != SenderProfileKind::CurrentUser);
                if switching {
                    r matches BindDecision::ConfirmSwitchToShared {
                        room_id: rid,
                        bot_id,
                        sender_profile_id,
                    } && rid@ == room_id->0@ && bot_id == self.selected_bot_id->0
                        && sender_profile_id == self.selected_sender_profile_id
                } else {
                    r matches BindDecision::Bind { room_id: rid, bot_id, sender_profile_id }
                        && rid@ == room_id->0@ && bot_id == self.selected_bot_id->0
                        && sender_profile_id == self.selected_sender_profile_id
                }
            },
    {
        let room_id = match room_id {
            Some(r) => r,
            None => return BindDecision::RoomNotReady,
        };
        let bot_id = match &self.selected_bot_id {
            Some(b) => b.clone(),
            None => return BindDecision::PickBotFirst,
        };
        if let Some(s) = &self.selected_sender_profile_id {
            if !sender_ready {
                return BindDecision::SenderNotReady { profile_id: s.clone() };
            }
        }
        let switching = room_is_personal_assist && match sender_kind {
            Some(k) => k != SenderProfileKind::CurrentUser,
            None => false,
        };
        let sender_profile_id = clone_opt_string(&self.selected_sender_profile_id);
        if switching {
            BindDecision::ConfirmSwitchToShared { room_id: owned(room_id), bot_id, sender_profile_id }
        } else {
            BindDecision::Bind { room_id: owned(room_id), bot_id, sender_profile_id }
        }
    }

    /// Forgets every selection, as after a logout. The dropdowns are filled again by the
    /// selector updates.
    pub fn clear(&mut self)
        ensures
            final(self).selected_bot_id is None,
            final(self).selected_sender_profile_id is None,
            final(self).rendered_room_id is None,
            final(self).bot_choice_ids@ == old(self).bot_choice_ids@,
            final(self).sender_choice_ids@ == old(self).sender_choice_ids@,
    {
        self.selected_bot_id = None;
        self.selected_sender_profile_id = None;
        self.rendered_room_id = None;
    }

    /// Whether the room the panel shows changed since it last rendered; if so, it is
    /// recorded as rendered.
    pub fn note_room(&mut self, current_room_id: Option<&str>) -> (r: bool)
        ensures
            r == !match (old(self).rendered_room_id, current_room_id) {
                (Some(a), Some(b)) => a@ == b@,
                (None, None) => true,
                _ => false,
            },
            match current_room_id {
                Some(c) => final(self).rendered_room_id matches Some(s) && s@ == c@,
                None => final(self).rendered_room_id is None,
            },
            final(self).bot_choice_ids@ == old(self).bot_choice_ids@,
            final(self).selected_bot_id == old(self).selected_bot_id,
            final(self).sender_choice_ids@ == old(self).sender_choice_ids@,
            final(self).selected_sender_profile_id == old(self).selected_sender_profile_id,
    {
        let same = match (&self.rendered_room_id, current_room_id) {
            (Some(a), Some(b)) => crate::text::str_eq(a.as_str(), b),
            (None, None) => true,
            _ => false,
        };
        self.rendered_room_id = match current_room_id {
            Some(c) => Some(owned(c)),
            None => None,
        };
        !same
    }
}

/// The binding summary shown for the room `room_id`: what the binding describes, or a
/// note that the room has not loaded.
pub fn binding_summary(room_id: Option<&str>, description: &str) -> (r: String)
    ensures
        room_id is Some ==> r@ == description@,
        room_id is None ==> r@
            == "This room is not ready yet. Open it again after Robrix finishes loading."@,
{
    match room_id {
        Some(_) => owned(description),
        None => owned("This room is not ready yet. Open it again after Robrix finishes loading."),
    }
}

/// The status line after a click on "Unbind Room" in the room `room_id`, given what
/// removing the binding returned.
pub fn unbind_status(room_id: Option<&str>, result: &Result<(), String>) -> (r: String)
    ensures
        room_id is None ==> r@ == msg_room_not_ready(),
        room_id is Some && result is Ok ==> r@ == msg_unbound(),
        room_id is Some && result is Err ==> r@ == result->Err_0@,
{
    match room_id {
        None => owned("This room is not ready for BotFather yet."),
        Some(_) => match result {
            Ok(()) => owned("Removed the room-level bot override."),
            Err(e) => e.clone(),
        },
    }
}


/// The status line after binding a room: what the binding reported, whether it
/// succeeded or not.
pub fn bind_status(result: &Result<String, String>) -> (r: String)
    ensures
        match result {
            Ok(m) => r@ == m@,
            Err(e) => r@ == e@,
        },
{
    match result {
        Ok(m) => m.clone(),
        Err(e) => e.clone(),
    }
}

} // verus!
