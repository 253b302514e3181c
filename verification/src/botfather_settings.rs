//! The BotFather settings screen: which section and cards are open, how the list of
//! room bindings is filtered, and the lines of text the screen shows.
use vstd::prelude::*;

use crate::ids::{parse_room_id, room_id_error};
use crate::text::{concat, owned, str_eq};

verus! {

/// The sections of the settings screen; one is shown at a time.
#[derive(Clone, Copy, PartialEq, Eq, Structural, Debug)]
pub enum BotfatherSettingsSection {
    Runtimes,
    Bots,
    Senders,
    Bindings,
    Workspace,
    Diagnostics,
}

/// Which room bindings the bindings section lists.
#[derive(Clone, Copy, PartialEq, Eq, Structural, Debug)]
pub enum BindingsFilter {
    All,
    Shared,
    Personal,
}

/// The bot runtimes a health check can target.
#[derive(Clone, Copy, PartialEq, Eq, Structural, Debug)]
pub enum RuntimeKind {
    Crew,
    OpenClaw,
}

/// A room bound explicitly to a bot, as the bindings section lists it.
pub struct ExplicitRoomBindingEntry {
    pub room_id: String,
    pub room_name: String,
    pub bot_name: String,
    pub sender_name: String,
    pub sender_profile_id: String,
    pub source: String,
    /// `shared-room-bot` or `personal-assist`.
    pub mode: String,
    pub sender_security: String,
    pub sender_ready: bool,
    pub runtime: String,
}

impl ExplicitRoomBindingEntry {
    /// A copy of this entry.
    pub fn duplicate(&self) -> (r: Self)
        ensures
            r == *self,
    {
        ExplicitRoomBindingEntry {
            room_id: self.room_id.clone(),
            room_name: self.room_name.clone(),
            bot_name: self.bot_name.clone(),
            sender_name: self.sender_name.clone(),
            sender_profile_id: self.sender_profile_id.clone(),
            source: self.source.clone(),
            mode: self.mode.clone(),
            sender_security: self.sender_security.clone(),
            sender_ready: self.sender_ready,
            runtime: self.runtime.clone(),
        }
    }

    /// The line under the room name: `bot: <bot> | sender: <sender> | source: <source>`.
    pub fn row_meta(&self) -> (r: String)
        ensures
            r@ == "bot: "@ + self.bot_name@ + " | sender: "@ + self.sender_name@
                + " | source: "@ + self.source@,
    {
        let mut t = concat("bot: ", self.bot_name.as_str());
        t.append(" | sender: ");
        t.append(self.sender_name.as_str());
        t.append(" | source: ");
        t.append(self.source.as_str());
        t
    }

    /// The text of the sender chip: the sender's security, then whether it is ready.
    pub fn sender_chip(&self) -> (r: String)
        ensures
            r@ == self.sender_security@ + " / "@ + if self.sender_ready {
                "ready"@
            } else {
                "needs setup"@
            },
    {
        let mut t = concat(self.sender_security.as_str(), " / ");
        if self.sender_ready {
            t.append("ready");
        } else {
            t.append("needs setup");
        }
        t
    }
}

/// Whether a binding in `mode` passes `filter`.
pub open spec fn passes_filter(filter: BindingsFilter, mode: Seq<char>) -> bool {
    match filter {
        BindingsFilter::All => true,
        BindingsFilter::Shared => mode == "shared-room-bot"@,
        BindingsFilter::Personal => mode == "personal-assist"@,
    }
}

/// The first `n` entries that pass `filter`, in order.
pub open spec fn filtered_prefix(
    entries: Seq<ExplicitRoomBindingEntry>,
    filter: BindingsFilter,
    n: nat,
) -> Seq<ExplicitRoomBindingEntry>
    decreases n,
{
    if n == 0 {
        Seq::empty()
    } else {
        let prev = filtered_prefix(entries, filter, (n - 1) as nat);
        if passes_filter(filter, entries[n - 1].mode@) {
            prev.push(entries[n - 1])
        } else {
            prev
        }
    }
}

/// The entries that pass `filter`, in order.
pub open spec fn filtered(entries: Seq<ExplicitRoomBindingEntry>, filter: BindingsFilter) -> Seq<
    ExplicitRoomBindingEntry,
> {
    filtered_prefix(entries, filter, entries.len())
}

/// The runtime and sender configuration form: its default values, or what its fields
/// show.
pub struct ConfigForm {
    pub crew_endpoint: String,
    pub crew_auth_token_env: String,
    pub openclaw_gateway_url: String,
    pub openclaw_auth_token_env: String,
    pub workspace_root: String,
    pub shared_sender_homeserver: String,
    pub shared_sender_user_id: String,
    pub shared_sender_device_id: String,
    pub shared_sender_access_token_env: String,
    pub secure_sender_homeserver: String,
    pub secure_sender_user_id: String,
    pub secure_sender_device_id: String,
    pub secure_sender_access_token_env: String,
}

/// Whether every field of the form is empty.
pub open spec fn form_is_empty(f: ConfigForm) -> bool {
    f.crew_endpoint@.len() == 0
    && f.crew_auth_token_env@.len() == 0
    && f.openclaw_gateway_url@.len() == 0
    && f.openclaw_auth_token_env@.len() == 0
    && f.workspace_root@.len() == 0
    && f.shared_sender_homeserver@.len() == 0
    && f.shared_sender_user_id@.len() == 0
    && f.shared_sender_device_id@.len() == 0
    && f.shared_sender_access_token_env@.len() == 0
    && f.secure_sender_homeserver@.len() == 0
    && f.secure_sender_user_id@.len() == 0
    && f.secure_sender_device_id@.len() == 0
    && f.secure_sender_access_token_env@.len() == 0
}

impl ConfigForm {
    /// A form with every field empty.
    pub fn empty() -> (r: Self)
        ensures
            form_is_empty(r),
    {
        ConfigForm {
            crew_endpoint: String::new(),
            crew_auth_token_env: String::new(),
            openclaw_gateway_url: String::new(),
            openclaw_auth_token_env: String::new(),
            workspace_root: String::new(),
            shared_sender_homeserver: String::new(),
            shared_sender_user_id: String::new(),
            shared_sender_device_id: String::new(),
            shared_sender_access_token_env: String::new(),
            secure_sender_homeserver: String::new(),
            secure_sender_user_id: String::new(),
            secure_sender_device_id: String::new(),
            secure_sender_access_token_env: String::new(),
        }
    }

    /// A copy of the form.
    pub fn duplicate(&self) -> (r: Self)
        ensures
            r == *self,
    {
        ConfigForm {
            crew_endpoint: self.crew_endpoint.clone(),
            crew_auth_token_env: self.crew_auth_token_env.clone(),
            openclaw_gateway_url: self.openclaw_gateway_url.clone(),
            openclaw_auth_token_env: self.openclaw_auth_token_env.clone(),
            workspace_root: self.workspace_root.clone(),
            shared_sender_homeserver: self.shared_sender_homeserver.clone(),
            shared_sender_user_id: self.shared_sender_user_id.clone(),
            shared_sender_device_id: self.shared_sender_device_id.clone(),
            shared_sender_access_token_env: self.shared_sender_access_token_env.clone(),
            secure_sender_homeserver: self.secure_sender_homeserver.clone(),
            secure_sender_user_id: self.secure_sender_user_id.clone(),
            secure_sender_device_id: self.secure_sender_device_id.clone(),
            secure_sender_access_token_env: self.secure_sender_access_token_env.clone(),
        }
    }
}

/// What the BotFather service reports for the settings screen: the form defaults, the
/// summaries of runtimes, bots, senders, workspace and diagnostics, the explicit room
/// bindings with their statistics, whether room stream previews are on, and the bot
/// command help.
pub struct BotfatherOverview {
    pub defaults: ConfigForm,
    pub crew_runtime_summary: String,
    pub openclaw_runtime_summary: String,
    pub bots_overview: String,
    pub current_sender_summary: String,
    pub shared_sender_summary: String,
    pub secure_sender_summary: String,
    pub binding_entries: Vec<ExplicitRoomBindingEntry>,
    pub bindings_stats: String,
    pub preview_enabled: bool,
    pub help_text: String,
    pub workspace_overview: String,
    pub diagnostics_overview: String,
}

/// The texts the settings screen shows: the form, the two sender passwords, and its
/// summary and status lines.
pub struct SettingsTexts {
    pub form: ConfigForm,
    pub shared_sender_password: String,
    pub secure_sender_password: String,
    pub crew_runtime_summary: String,
    pub openclaw_runtime_summary: String,
    pub bots_summary: String,
    pub current_sender_summary: String,
    pub shared_sender_summary: String,
    pub secure_sender_summary: String,
    pub bindings_stats: String,
    pub room_stream_mode_summary: String,
    pub command_hint: String,
    pub workspace_summary: String,
    pub diagnostics_summary: String,
    pub status: String,
}

/// Whether every text of the screen is empty.
pub open spec fn texts_are_empty(t: SettingsTexts) -> bool {
    form_is_empty(t.form)
    && t.shared_sender_password@.len() == 0
    && t.secure_sender_password@.len() == 0
    && t.crew_runtime_summary@.len() == 0
    && t.openclaw_runtime_summary@.len() == 0
    && t.bots_summary@.len() == 0
    && t.current_sender_summary@.len() == 0
    && t.shared_sender_summary@.len() == 0
    && t.secure_sender_summary@.len() == 0
    && t.bindings_stats@.len() == 0
    && t.room_stream_mode_summary@.len() == 0
    && t.command_hint@.len() == 0
    && t.workspace_summary@.len() == 0
    && t.diagnostics_summary@.len() == 0
    && t.status@.len() == 0
}

impl SettingsTexts {
    /// Every text empty.
    pub fn empty() -> (r: Self)
        ensures
            texts_are_empty(r),
    {
        SettingsTexts {
            form: ConfigForm::empty(),
            shared_sender_password: String::new(),
            secure_sender_password: String::new(),
            crew_runtime_summary: String::new(),
            openclaw_runtime_summary: String::new(),
            bots_summary: String::new(),
            current_sender_summary: String::new(),
            shared_sender_summary: String::new(),
            secure_sender_summary: String::new(),
            bindings_stats: String::new(),
            room_stream_mode_summary: String::new(),
            command_hint: String::new(),
            workspace_summary: String::new(),
            diagnostics_summary: String::new(),
            status: String::new(),
        }
    }
}

/// A click on the settings screen that changes which parts are open.
pub enum SettingsClick {
    Section(BotfatherSettingsSection),
    Filter(BindingsFilter),
    ToggleCrewRuntime,
    ToggleOpenclawRuntime,
    ToggleSharedSender,
    ToggleSecureSender,
}

/// The state of the settings screen.
pub struct BotfatherSettings {
    pub selected_section: BotfatherSettingsSection,
    pub crew_runtime_expanded: bool,
    pub openclaw_runtime_expanded: bool,
    pub shared_sender_expanded: bool,
    pub secure_sender_expanded: bool,
    pub bindings_filter: BindingsFilter,
    pub binding_entries: Vec<ExplicitRoomBindingEntry>,
    /// What the form and the summary lines show.
    pub texts: SettingsTexts,
}

/// The id of the shared bot sender profile.
pub open spec fn shared_sender_id() -> Seq<char> {
    "shared-bot-sender"@
}

/// The id of the secure room sender profile.
pub open spec fn secure_sender_id() -> Seq<char> {
    "secure-room-bot-sender"@
}

impl BotfatherSettings {
    /// The screen as it opens: the runtimes section, every card closed, all bindings
    /// listed, none known yet.
    pub fn new() -> (r: Self)
        ensures
            r.selected_section == BotfatherSettingsSection::Runtimes,
            !r.crew_runtime_expanded && !r.openclaw_runtime_expanded,
            !r.shared_sender_expanded && !r.secure_sender_expanded,
            r.bindings_filter == BindingsFilter::All,
            r.binding_entries@.len() == 0,
            texts_are_empty(r.texts),
    {
        BotfatherSettings {
            selected_section: BotfatherSettingsSection::Runtimes,
            crew_runtime_expanded: false,
            openclaw_runtime_expanded: false,
            shared_sender_expanded: false,
            secure_sender_expanded: false,
            bindings_filter: BindingsFilter::All,
            binding_entries: Vec::new(),
            texts: SettingsTexts::empty(),
        }
    }

    /// Whether `section` is the one shown (its button is then highlighted).
    pub fn section_visible(&self, section: BotfatherSettingsSection) -> (r: bool)
        ensures
            r == (self.selected_section == section),
    {
        self.selected_section == section
    }

    /// Applies a click: a section button shows that section, a filter button lists
    /// the bindings it selects, and a card toggle opens or closes that card. Nothing
    /// else changes.
    pub fn handle_click(&mut self, click: SettingsClick)
        ensures
            final(self).binding_entries@ == old(self).binding_entries@,
            final(self).selected_section == match click {
                SettingsClick::Section(s) => s,
                _ => old(self).selected_section,
            },
            final(self).bindings_filter == match click {
                SettingsClick::Filter(f) => f,
                _ => old(self).bindings_filter,
            },
            final(self).crew_runtime_expanded == (old(self).crew_runtime_expanded != (click is ToggleCrewRuntime)),
            final(self).openclaw_runtime_expanded == (old(self).openclaw_runtime_expanded != (click is ToggleOpenclawRuntime)),
            final(self).shared_sender_expanded == (old(self).shared_sender_expanded != (click is ToggleSharedSender)),
            final(self).secure_sender_expanded == (old(self).secure_sender_expanded != (click is ToggleSecureSender)),
    {
        match click {
            SettingsClick::Section(s) => self.selected_section = s,
            SettingsClick::Filter(f) => self.bindings_filter = f,
            SettingsClick::ToggleCrewRuntime => self.crew_runtime_expanded = !self.crew_runtime_expanded,
            SettingsClick::ToggleOpenclawRuntime => self.openclaw_runtime_expanded = !self.openclaw_runtime_expanded,
            SettingsClick::ToggleSharedSender => self.shared_sender_expanded = !self.shared_sender_expanded,
            SettingsClick::ToggleSecureSender => self.secure_sender_expanded = !self.secure_sender_expanded,
        }
    }

    /// Takes the room bindings to list.
    pub fn set_binding_entries(&mut self, entries: Vec<ExplicitRoomBindingEntry>)
        ensures
            final(self).binding_entries@ == entries@,
            final(self).bindings_filter == old(self).bindings_filter,
            final(self).selected_section == old(self).selected_section,
    {
        self.binding_entries = entries;
    }

    /// The bindings the list shows: those whose mode passes the filter, in order.
    pub fn filtered_binding_entries(&self) -> (r: Vec<ExplicitRoomBindingEntry>)
        ensures
            r@ == filtered(self.binding_entries@, self.bindings_filter),
    {
        let mut out: Vec<ExplicitRoomBindingEntry> = Vec::new();
        let n = self.binding_entries.len();
        let mut i: usize = 0;
        while i < n
            invariant
                n == self.binding_entries@.len(),
                i <= n,
                out@ == filtered_prefix(self.binding_entries@, self.bindings_filter, i as nat),
            decreases n - i,
        {
            let e = &self.binding_entries[i];
            let keep = match self.bindings_filter {
                BindingsFilter::All => true,
                BindingsFilter::Shared => str_eq(e.mode.as_str(), "shared-room-bot"),
                BindingsFilter::Personal => str_eq(e.mode.as_str(), "personal-assist"),
            };
            if keep {
                out.push(e.duplicate());
            }
            i = i + 1;
        }
        out
    }

    /// Shows the senders section with the card of sender `sender_profile_id` open (the
    /// shared and the secure sender each close the other's card); returns the status
    /// line.
    pub fn focus_sender_profile(&mut self, sender_profile_id: &str) -> (r: String)
        ensures
            final(self).selected_section == BotfatherSettingsSection::Senders,
            sender_profile_id@ == shared_sender_id() ==> final(self).shared_sender_expanded
                && !final(self).secure_sender_expanded,
            sender_profile_id@ == secure_sender_id() ==> !final(self).shared_sender_expanded
                && final(self).secure_sender_expanded,
            sender_profile_id@ != shared_sender_id() && sender_profile_id@ != secure_sender_id()
                ==> final(self).shared_sender_expanded == old(self).shared_sender_expanded
                && final(self).secure_sender_expanded == old(self).secure_sender_expanded,
            final(self).crew_runtime_expanded == old(self).crew_runtime_expanded,
            final(self).openclaw_runtime_expanded == old(self).openclaw_runtime_expanded,
            final(self).bindings_filter == old(self).bindings_filter,
            final(self).binding_entries@ == old(self).binding_entries@,
            r@ == "Focused sender profile `"@ + sender_profile_id@ + "` in Senders."@,
    {
        proof {
            reveal_strlit("shared-bot-sender");
            reveal_strlit("secure-room-bot-sender");
        }
        self.selected_section = BotfatherSettingsSection::Senders;
        if str_eq(sender_profile_id, "shared-bot-sender") {
            self.shared_sender_expanded = true;
            self.secure_sender_expanded = false;
        } else if str_eq(sender_profile_id, "secure-room-bot-sender") {
            self.shared_sender_expanded = false;
            self.secure_sender_expanded = true;
        }
        let mut t = concat("Focused sender profile `", sender_profile_id);
        t.append("` in Senders.");
        t
    }

    /// Forgets the listed bindings, lists all of them again and empties every field and
    /// line, as after a logout.
    pub fn clear(&mut self)
        ensures
            texts_are_empty(final(self).texts),
            final(self).binding_entries@.len() == 0,
            final(self).bindings_filter == BindingsFilter::All,
            final(self).selected_section == old(self).selected_section,
            final(self).crew_runtime_expanded == old(self).crew_runtime_expanded,
            final(self).openclaw_runtime_expanded == old(self).openclaw_runtime_expanded,
            final(self).shared_sender_expanded == old(self).shared_sender_expanded,
            final(self).secure_sender_expanded == old(self).secure_sender_expanded,
    {
        self.binding_entries = Vec::new();
        self.bindings_filter = BindingsFilter::All;
        self.texts = SettingsTexts::empty();
    }

    /// Fills the screen from what the BotFather service reports: the form shows the
    /// defaults with both passwords empty, the summary lines show the service's
    /// summaries, the stream mode line follows whether previews are on, the command
    /// hint shows the help with examples for `example_bot`, and the bindings are listed.
    /// The section, cards, filter and status line stay as they are.
    pub fn populate(&mut self, overview: BotfatherOverview, example_bot: &str)
        ensures
            final(self).texts.form == overview.defaults,
            final(self).texts.shared_sender_password@.len() == 0,
            final(self).texts.secure_sender_password@.len() == 0,
            final(self).texts.crew_runtime_summary == overview.crew_runtime_summary,
            final(self).texts.openclaw_runtime_summary == overview.openclaw_runtime_summary,
            final(self).texts.bots_summary == overview.bots_overview,
            final(self).texts.current_sender_summary == overview.current_sender_summary,
            final(self).texts.shared_sender_summary == overview.shared_sender_summary,
            final(self).texts.secure_sender_summary == overview.secure_sender_summary,
            final(self).texts.bindings_stats == overview.bindings_stats,
            final(self).texts.room_stream_mode_summary@ == (if overview.preview_enabled {
                "Preview mode is on. Bot output stays in the room panel until you click Post Preview."@
            } else {
                "Preview mode is off. Finished bot output is sent back to Matrix automatically."@
            }),
            final(self).texts.command_hint@ == overview.help_text@ + command_examples(
                example_bot@,
            ),
            final(self).texts.workspace_summary == overview.workspace_overview,
            final(self).texts.diagnostics_summary == overview.diagnostics_overview,
            final(self).texts.status == old(self).texts.status,
            final(self).binding_entries@ == overview.binding_entries@,
            final(self).selected_section == old(self).selected_section,
            final(self).bindings_filter == old(self).bindings_filter,
            final(self).crew_runtime_expanded == old(self).crew_runtime_expanded,
            final(self).openclaw_runtime_expanded == old(self).openclaw_runtime_expanded,
            final(self).shared_sender_expanded == old(self).shared_sender_expanded,
            final(self).secure_sender_expanded == old(self).secure_sender_expanded,
    {
        let command_hint = command_help(overview.help_text.as_str(), example_bot);
        let room_stream_mode_summary = owned(stream_mode_summary(overview.preview_enabled));
        let status = self.texts.status.clone();
        self.texts = SettingsTexts {
            form: overview.defaults,
            shared_sender_password: String::new(),
            secure_sender_password: String::new(),
            crew_runtime_summary: overview.crew_runtime_summary,
            openclaw_runtime_summary: overview.openclaw_runtime_summary,
            bots_summary: overview.bots_overview,
            current_sender_summary: overview.current_sender_summary,
            shared_sender_summary: overview.shared_sender_summary,
            secure_sender_summary: overview.secure_sender_summary,
            bindings_stats: overview.bindings_stats,
            room_stream_mode_summary,
            command_hint,
            workspace_summary: overview.workspace_overview,
            diagnostics_summary: overview.diagnostics_overview,
            status,
        };
        self.binding_entries = overview.binding_entries;
    }
}

/// The status line after asking for a runtime health check.
pub fn healthcheck_started_status(kind: RuntimeKind, result: &Result<(), String>) -> (r: String)
    ensures
        result is Err ==> r@ == result->Err_0@,
        result is Ok && kind == RuntimeKind::Crew ==> r@ == "Running Crew runtime healthcheck..."@,
        result is Ok && kind == RuntimeKind::OpenClaw ==> r@
            == "Running OpenClaw runtime healthcheck..."@,
{
    match result {
        Err(e) => e.clone(),
        Ok(()) => match kind {
            RuntimeKind::Crew => owned("Running Crew runtime healthcheck..."),
            RuntimeKind::OpenClaw => owned("Running OpenClaw runtime healthcheck..."),
        },
    }
}

/// The status line after refreshing the bot inventory: whether it changed, or the
/// error.
pub fn inventory_refresh_status(result: &Result<bool, String>) -> (r: String)
    ensures
        result matches Ok(true) ==> r@ == "Bot inventory refreshed from the current room list."@,
        result matches Ok(false) ==> r@ == "Bot inventory was already up to date."@,
        result is Err ==> r@ == result->Err_0@,
{
    match result {
        Ok(true) => owned("Bot inventory refreshed from the current room list."),
        Ok(false) => owned("Bot inventory was already up to date."),
        Err(e) => e.clone(),
    }
}

/// The status line after saving the default profiles.
pub fn save_defaults_status(result: &Result<(), String>) -> (r: String)
    ensures
        result is Ok ==> r@ == "Saved the BotFather runtime and sender configuration."@,
        result is Err ==> r@ == result->Err_0@,
{
    match result {
        Ok(()) => owned("Saved the BotFather runtime and sender configuration."),
        Err(e) => e.clone(),
    }
}

/// The status line shown while a sender's login is being verified.
pub fn verifying_status(sender_profile_id: &str) -> (r: String)
    ensures
        sender_profile_id@ == secure_sender_id() ==> r@
            == "Verifying Secure Room Sender login..."@,
        sender_profile_id@ != secure_sender_id() ==> r@ == "Verifying Shared Bot Sender login..."@,
{
    if str_eq(sender_profile_id, "secure-room-bot-sender") {
        owned("Verifying Secure Room Sender login...")
    } else {
        owned("Verifying Shared Bot Sender login...")
    }
}

/// The summary of the room stream mode.
pub fn stream_mode_summary(preview_enabled: bool) -> (r: &'static str)
    ensures
        preview_enabled ==> r@
            == "Preview mode is on. Bot output stays in the room panel until you click Post Preview."@,
        !preview_enabled ==> r@
            == "Preview mode is off. Finished bot output is sent back to Matrix automatically."@,
{
    if preview_enabled {
        "Preview mode is on. Bot output stays in the room panel until you click Post Preview."
    } else {
        "Preview mode is off. Finished bot output is sent back to Matrix automatically."
    }
}

/// The text of the button that switches the preview mode.
pub fn preview_toggle_text(preview_enabled: bool) -> (r: &'static str)
    ensures
        preview_enabled ==> r@ == "Disable Preview"@,
        !preview_enabled ==> r@ == "Enable Preview"@,
{
    if preview_enabled {
        "Disable Preview"
    } else {
        "Enable Preview"
    }
}

/// The example lines of the command hint, for a bot named `bot`.
pub open spec fn command_examples(bot: Seq<char>) -> Seq<char> {
    "\n\nexamples\n/bot create "@ + bot + "\n/bot bind "@ + bot + "\n/bot set-model "@ + bot
        + " deepseek-chat\n/bot set-prompt "@ + bot + " You are my "@ + bot
        + "\n/bot diagnostics"@
}

/// The text of the command hint: the bot command help, then examples of each command
/// for a bot named `example_bot`.
pub fn command_help(help: &str, example_bot: &str) -> (r: String)
    ensures
        r@ == help@ + command_examples(example_bot@),
{
    let mut t = concat(help, "\n\nexamples\n/bot create ");
    t.append(example_bot);
    t.append("\n/bot bind ");
    t.append(example_bot);
    t.append("\n/bot set-model ");
    t.append(example_bot);
    t.append(" deepseek-chat\n/bot set-prompt ");
    t.append(example_bot);
    t.append(" You are my ");
    t.append(example_bot);
    t.append("\n/bot diagnostics");
    t
}

/// The room to open for a click on a binding's "Open Room": its ID when it parses, else
/// the status line explaining the failure.
pub fn binding_room_to_open(room_id: &str) -> (r: Result<String, String>)
    ensures
        room_id_error(room_id) is None ==> (r matches Ok(id) && id@ == room_id@),
        room_id_error(room_id) is Some ==> (r matches Err(e) && e@
            == "Failed to parse room id for navigation."@),
{
    match parse_room_id(room_id) {
        Ok(id) => Ok(id),
        Err(_) => Err(owned("Failed to parse room id for navigation.")),
    }
}


/// The buttons of a row of the bindings list.
#[derive(Clone, Copy, PartialEq, Eq, Structural, Debug)]
pub enum BindingEntryButton {
    OpenRoom,
    ManageSender,
    Unbind,
}

/// What a click on a row of the bindings list asks for.
pub enum BindingEntryAction {
    OpenRoom(String),
    ManageSender(String),
    Unbind(String),
}

/// A row of the bindings list: the binding it shows, once it has been given one.
pub struct BindingListEntry {
    pub entry: Option<ExplicitRoomBindingEntry>,
}

impl BindingListEntry {
    /// What a click on `button` asks for: opening or unbinding the entry's room, or
    /// managing its sender; a row without an entry asks for nothing.
    pub fn click(&self, button: BindingEntryButton) -> (r: Option<BindingEntryAction>)
        ensures
            self.entry is None ==> r is None,
            self.entry matches Some(e) ==> match button {
                BindingEntryButton::OpenRoom => r matches Some(BindingEntryAction::OpenRoom(id))
                    && id == e.room_id,
                BindingEntryButton::ManageSender => r matches Some(
                    BindingEntryAction::ManageSender(id),
                ) && id == e.sender_profile_id,
                BindingEntryButton::Unbind => r matches Some(BindingEntryAction::Unbind(id)) && id
                    == e.room_id,
            },
    {
        match &self.entry {
            None => None,
            Some(e) => Some(
                match button {
                    BindingEntryButton::OpenRoom => BindingEntryAction::OpenRoom(e.room_id.clone()),
                    BindingEntryButton::ManageSender => BindingEntryAction::ManageSender(
                        e.sender_profile_id.clone(),
                    ),
                    BindingEntryButton::Unbind => BindingEntryAction::Unbind(e.room_id.clone()),
                },
            ),
        }
    }
}

/// The status line after a click on a row's "Unbind": the confirmation, or the error.
pub fn unbind_entry_status(result: &Result<(), String>) -> (r: String)
    ensures
        result is Ok ==> r@ == "Removed the room-level bot override."@,
        result is Err ==> r@ == result->Err_0@,
{
    match result {
        Ok(()) => owned("Removed the room-level bot override."),
        Err(e) => e.clone(),
    }
}

} // verus!
