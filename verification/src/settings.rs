//! The application settings modal: which key edits, saves, toggles or
//! clears which setting, what a save hands to the preference store, and the
//! status line each outcome leaves.

use vstd::prelude::*;
use vstd::string::*;
use crate::fields::{
    comma_items, comma_list, join_comma, join_with_commas, parse_u64, parsed_u64, pop_last,
    string_views, without_last,
};
use crate::jaeger::{normalized_endpoint, validate_and_normalize_endpoint};
use crate::keys::Key;
use crate::messages::opt_view;
use crate::text::{decimal, push_char, push_decimal, push_decimal_u64, trim, trim_seq};

verus! {

/// The setting of the General tab.
#[derive(Debug, Clone, Copy, PartialEq, Eq, Structural)]
pub enum GeneralSetting {
    JaegerEndpoint,
}

/// A setting of the AI tab.
#[derive(Debug, Clone, Copy, PartialEq, Eq, Structural)]
pub enum AiSetting {
    ElevenLabsApiKey,
    OpenRouterApiKey,
    SelectedVoiceIds,
    OpenRouterModel,
    AudioPrompt,
    TtsInactivityThreshold,
    AudioEnabled,
}

/// A setting of the Appearance tab.
#[derive(Debug, Clone, Copy, PartialEq, Eq, Structural)]
pub enum AppearanceSetting {
    TimeFilter,
    HideScheduled,
}

/// A row of the Bunker tab.
#[derive(Debug, Clone, Copy, PartialEq, Eq, Structural)]
pub enum BunkerSetting {
    Enabled,
    Uri,
    Rules,
    Audit,
}

/// The tab shown and the setting under the cursor on it, if any.
#[derive(Debug, Clone, Copy, PartialEq, Eq, Structural)]
pub enum SettingsCursor {
    General(Option<GeneralSetting>),
    Ai(Option<AiSetting>),
    Appearance(Option<AppearanceSetting>),
    Bunker(Option<BunkerSetting>),
}

/// A text field of the form.
#[derive(Debug, Clone, Copy, PartialEq, Eq, Structural)]
pub enum SettingsField {
    JaegerEndpoint,
    ElevenLabsKey,
    OpenRouterKey,
    VoiceIds,
    OpenRouterModel,
    AudioPrompt,
    TtsInactivityThreshold,
}

/// An API key kept in secure storage.
#[derive(Debug, Clone, Copy, PartialEq, Eq, Structural)]
pub enum ApiKeyKind {
    ElevenLabs,
    OpenRouter,
}

/// A stored value that Delete removes.
#[derive(Debug, Clone, Copy, PartialEq, Eq, Structural)]
pub enum ClearTarget {
    ApiKey(ApiKeyKind),
    VoiceIds,
    OpenRouterModel,
}

/// The text fields of the settings form.
#[derive(Debug, Clone)]
pub struct SettingsInputs {
    pub jaeger_endpoint: String,
    pub elevenlabs_key: String,
    pub openrouter_key: String,
    pub voice_ids: String,
    pub openrouter_model: String,
    pub audio_prompt: String,
    pub tts_inactivity_threshold: String,
}

/// The settings modal's state.
#[derive(Debug, Clone)]
pub struct SettingsForm {
    pub cursor: SettingsCursor,
    /// A text field is being edited.
    pub editing: bool,
    pub inputs: SettingsInputs,
    pub elevenlabs_key_exists: bool,
    pub openrouter_key_exists: bool,
    pub audio_enabled: bool,
}

/// A value to store in the preferences or in secure storage.
#[derive(Debug, Clone, PartialEq, Eq)]
pub enum SaveRequest {
    JaegerEndpoint(String),
    ApiKey(ApiKeyKind, String),
    VoiceIds(Vec<String>),
    OpenRouterModel(Option<String>),
    AudioPrompt(String),
    TtsInactivityThreshold(u64),
}

/// What a key does in the settings modal.
#[derive(Debug, Clone, PartialEq, Eq)]
pub enum SettingsStep {
    NextTab,
    PrevTab,
    Close,
    /// Editing stopped without saving; the tab's fields are to be reloaded
    /// from the preferences (see `restore_inputs`).
    CancelEditing,
    MoveUp,
    MoveDown,
    StartEditing,
    StopEditing,
    /// A text field changed.
    Edited,
    /// Store this value; `finish_save` reports the outcome.
    Save(SaveRequest),
    /// The value was refused; editing goes on and this status is shown.
    Rejected(String),
    ToggleAudio,
    CycleTimeFilter,
    CycleScheduledFilter,
    /// Open the voice browser with these voices already chosen.
    OpenVoiceBrowser(Vec<String>),
    /// Open the model browser with this model already chosen.
    OpenModelBrowser(Option<String>),
    ToggleBunker,
    CopyBunkerUri,
    OpenBunkerRules,
    OpenBunkerAudit,
    /// Delete or clear a stored value; `finish_clear` reports the outcome.
    Clear(ClearTarget),
    /// Show this status and change nothing.
    Notice(String),
    Ignore,
}

/// A stored value, as the contracts speak of it.
pub enum SaveSpec {
    JaegerEndpoint(Seq<char>),
    ApiKey(ApiKeyKind, Seq<char>),
    VoiceIds(Seq<Seq<char>>),
    OpenRouterModel(Option<Seq<char>>),
    AudioPrompt(Seq<char>),
    TtsInactivityThreshold(u64),
}

/// A step of the settings modal, as the contracts speak of it.
pub enum StepSpec {
    NextTab,
    PrevTab,
    Close,
    CancelEditing,
    MoveUp,
    MoveDown,
    StartEditing,
    StopEditing,
    Edited,
    Save(SaveSpec),
    Rejected(Seq<char>),
    ToggleAudio,
    CycleTimeFilter,
    CycleScheduledFilter,
    OpenVoiceBrowser(Seq<Seq<char>>),
    OpenModelBrowser(Option<Seq<char>>),
    ToggleBunker,
    CopyBunkerUri,
    OpenBunkerRules,
    OpenBunkerAudit,
    Clear(ClearTarget),
    Notice(Seq<char>),
    Ignore,
}

impl View for SaveRequest {
    type V = SaveSpec;

    open spec fn view(&self) -> SaveSpec {
        match *self {
            SaveRequest::JaegerEndpoint(e) => SaveSpec::JaegerEndpoint(e@),
            SaveRequest::ApiKey(k, v) => SaveSpec::ApiKey(k, v@),
            SaveRequest::VoiceIds(ids) => SaveSpec::VoiceIds(string_views(ids@)),
            SaveRequest::OpenRouterModel(m) => SaveSpec::OpenRouterModel(opt_view(m)),
            SaveRequest::AudioPrompt(p) => SaveSpec::AudioPrompt(p@),
            SaveRequest::TtsInactivityThreshold(n) => SaveSpec::TtsInactivityThreshold(n),
        }
    }
}

impl View for SettingsStep {
    type V = StepSpec;

    open spec fn view(&self) -> StepSpec {
        match *self {
            SettingsStep::NextTab => StepSpec::NextTab,
            SettingsStep::PrevTab => StepSpec::PrevTab,
            SettingsStep::Close => StepSpec::Close,
            SettingsStep::CancelEditing => StepSpec::CancelEditing,
            SettingsStep::MoveUp => StepSpec::MoveUp,
            SettingsStep::MoveDown => StepSpec::MoveDown,
            SettingsStep::StartEditing => StepSpec::StartEditing,
            SettingsStep::StopEditing => StepSpec::StopEditing,
            SettingsStep::Edited => StepSpec::Edited,
            SettingsStep::Save(s) => StepSpec::Save(s@),
            SettingsStep::Rejected(m) => StepSpec::Rejected(m@),
            SettingsStep::ToggleAudio => StepSpec::ToggleAudio,
            SettingsStep::CycleTimeFilter => StepSpec::CycleTimeFilter,
            SettingsStep::CycleScheduledFilter => StepSpec::CycleScheduledFilter,
            SettingsStep::OpenVoiceBrowser(ids) => StepSpec::OpenVoiceBrowser(string_views(ids@)),
            SettingsStep::OpenModelBrowser(m) => StepSpec::OpenModelBrowser(opt_view(m)),
            SettingsStep::ToggleBunker => StepSpec::ToggleBunker,
            SettingsStep::CopyBunkerUri => StepSpec::CopyBunkerUri,
            SettingsStep::OpenBunkerRules => StepSpec::OpenBunkerRules,
            SettingsStep::OpenBunkerAudit => StepSpec::OpenBunkerAudit,
            SettingsStep::Clear(t) => StepSpec::Clear(t),
            SettingsStep::Notice(m) => StepSpec::Notice(m@),
            SettingsStep::Ignore => StepSpec::Ignore,
        }
    }
}

/// The text field that typing edits at this cursor, if any.
pub open spec fn field_of(cursor: SettingsCursor) -> Option<SettingsField> {
    match cursor {
        SettingsCursor::General(Some(GeneralSetting::JaegerEndpoint)) => Some(
            SettingsField::JaegerEndpoint,
        ),
        SettingsCursor::Ai(Some(AiSetting::ElevenLabsApiKey)) => Some(SettingsField::ElevenLabsKey),
        SettingsCursor::Ai(Some(AiSetting::OpenRouterApiKey)) => Some(SettingsField::OpenRouterKey),
        SettingsCursor::Ai(Some(AiSetting::SelectedVoiceIds)) => Some(SettingsField::VoiceIds),
        SettingsCursor::Ai(Some(AiSetting::OpenRouterModel)) => Some(SettingsField::OpenRouterModel),
        SettingsCursor::Ai(Some(AiSetting::AudioPrompt)) => Some(SettingsField::AudioPrompt),
        SettingsCursor::Ai(Some(AiSetting::TtsInactivityThreshold)) => Some(
            SettingsField::TtsInactivityThreshold,
        ),
        _ => None,
    }
}

/// The text of a field.
pub open spec fn field_text(inputs: SettingsInputs, f: SettingsField) -> Seq<char> {
    match f {
        SettingsField::JaegerEndpoint => inputs.jaeger_endpoint@,
        SettingsField::ElevenLabsKey => inputs.elevenlabs_key@,
        SettingsField::OpenRouterKey => inputs.openrouter_key@,
        SettingsField::VoiceIds => inputs.voice_ids@,
        SettingsField::OpenRouterModel => inputs.openrouter_model@,
        SettingsField::AudioPrompt => inputs.audio_prompt@,
        SettingsField::TtsInactivityThreshold => inputs.tts_inactivity_threshold@,
    }
}

/// The model a model field names: its trimmed text, or none when blank.
pub open spec fn model_choice(text: Seq<char>) -> Option<Seq<char>> {
    let t = trim_seq(text);
    if t.len() == 0 {
        None
    } else {
        Some(t)
    }
}

/// The status for a refused endpoint.
pub open spec fn invalid_endpoint_status(error: Seq<char>) -> Seq<char> {
    "Invalid endpoint: "@ + error
}

/// The status for a threshold that is not a number.
pub open spec fn invalid_seconds_status() -> Seq<char> {
    "Invalid value: enter a number of seconds"@
}

/// The status when there is no key of this kind to delete.
pub open spec fn no_key_status(kind: ApiKeyKind) -> Seq<char> {
    match kind {
        ApiKeyKind::ElevenLabs => "No ElevenLabs API key to delete"@,
        ApiKeyKind::OpenRouter => "No OpenRouter API key to delete"@,
    }
}

/// Enter while editing: save the edited value, refuse it, or stop editing.
pub open spec fn enter_editing(form: SettingsForm) -> StepSpec {
    let inputs = form.inputs;
    match form.cursor {
        SettingsCursor::General(Some(GeneralSetting::JaegerEndpoint)) => match normalized_endpoint(
            inputs.jaeger_endpoint@,
        ) {
            Ok(n) => StepSpec::Save(SaveSpec::JaegerEndpoint(n)),
            Err(e) => StepSpec::Rejected(invalid_endpoint_status(e)),
        },
        SettingsCursor::Ai(Some(AiSetting::ElevenLabsApiKey)) => if inputs.elevenlabs_key@.len()
            > 0 {
            StepSpec::Save(SaveSpec::ApiKey(ApiKeyKind::ElevenLabs, inputs.elevenlabs_key@))
        } else {
            StepSpec::Ignore
        },
        SettingsCursor::Ai(Some(AiSetting::OpenRouterApiKey)) => if inputs.openrouter_key@.len()
            > 0 {
            StepSpec::Save(SaveSpec::ApiKey(ApiKeyKind::OpenRouter, inputs.openrouter_key@))
        } else {
            StepSpec::Ignore
        },
        SettingsCursor::Ai(Some(AiSetting::SelectedVoiceIds)) => StepSpec::Save(
            SaveSpec::VoiceIds(comma_items(inputs.voice_ids@)),
        ),
        SettingsCursor::Ai(Some(AiSetting::OpenRouterModel)) => StepSpec::Save(
            SaveSpec::OpenRouterModel(model_choice(inputs.openrouter_model@)),
        ),
        SettingsCursor::Ai(Some(AiSetting::AudioPrompt)) => StepSpec::Save(
            SaveSpec::AudioPrompt(inputs.audio_prompt@),
        ),
        SettingsCursor::Ai(Some(AiSetting::TtsInactivityThreshold)) => match parsed_u64(
            trim_seq(inputs.tts_inactivity_threshold@),
        ) {
            Some(secs) => StepSpec::Save(SaveSpec::TtsInactivityThreshold(secs)),
            None => StepSpec::Rejected(invalid_seconds_status()),
        },
        _ => StepSpec::StopEditing,
    }
}

/// Enter while browsing: toggle, cycle, open a browser or a sub-modal, or
/// start editing the setting under the cursor.
pub open spec fn enter_browsing(form: SettingsForm) -> StepSpec {
    match form.cursor {
        SettingsCursor::Ai(Some(AiSetting::AudioEnabled)) => StepSpec::ToggleAudio,
        SettingsCursor::Appearance(Some(AppearanceSetting::TimeFilter)) => StepSpec::CycleTimeFilter,
        SettingsCursor::Appearance(Some(AppearanceSetting::HideScheduled)) => StepSpec::CycleScheduledFilter,
        SettingsCursor::Appearance(None) => StepSpec::Ignore,
        SettingsCursor::Ai(Some(AiSetting::SelectedVoiceIds)) => StepSpec::OpenVoiceBrowser(
            comma_items(form.inputs.voice_ids@),
        ),
        SettingsCursor::Ai(Some(AiSetting::OpenRouterModel)) => StepSpec::OpenModelBrowser(
            model_choice(form.inputs.openrouter_model@),
        ),
        SettingsCursor::Bunker(Some(BunkerSetting::Enabled)) => StepSpec::ToggleBunker,
        SettingsCursor::Bunker(Some(BunkerSetting::Uri)) => StepSpec::CopyBunkerUri,
        SettingsCursor::Bunker(Some(BunkerSetting::Rules)) => StepSpec::OpenBunkerRules,
        SettingsCursor::Bunker(Some(BunkerSetting::Audit)) => StepSpec::OpenBunkerAudit,
        SettingsCursor::Bunker(None) => StepSpec::Ignore,
        _ => StepSpec::StartEditing,
    }
}

/// Delete while browsing: delete an API key or clear a stored value.
pub open spec fn delete_step(form: SettingsForm) -> StepSpec {
    match form.cursor {
        SettingsCursor::Ai(Some(AiSetting::ElevenLabsApiKey)) => if form.elevenlabs_key_exists {
            StepSpec::Clear(ClearTarget::ApiKey(ApiKeyKind::ElevenLabs))
        } else {
            StepSpec::Notice(no_key_status(ApiKeyKind::ElevenLabs))
        },
        SettingsCursor::Ai(Some(AiSetting::OpenRouterApiKey)) => if form.openrouter_key_exists {
            StepSpec::Clear(ClearTarget::ApiKey(ApiKeyKind::OpenRouter))
        } else {
            StepSpec::Notice(no_key_status(ApiKeyKind::OpenRouter))
        },
        SettingsCursor::Ai(Some(AiSetting::SelectedVoiceIds)) => StepSpec::Clear(ClearTarget::VoiceIds),
        SettingsCursor::Ai(Some(AiSetting::OpenRouterModel)) => StepSpec::Clear(
            ClearTarget::OpenRouterModel,
        ),
        _ => StepSpec::Ignore,
    }
}

/// What `key` does in the settings modal in state `form`.
pub open spec fn settings_step(form: SettingsForm, key: Key) -> StepSpec {
    let editing = form.editing;
    match key {
        Key::Tab => if !editing {
            StepSpec::NextTab
        } else {
            StepSpec::Ignore
        },
        Key::BackTab => if !editing {
            StepSpec::PrevTab
        } else {
            StepSpec::Ignore
        },
        Key::Esc => if editing {
            StepSpec::CancelEditing
        } else {
            StepSpec::Close
        },
        Key::Enter => if editing {
            enter_editing(form)
        } else {
            enter_browsing(form)
        },
        Key::Char(_) => if editing {
            StepSpec::Edited
        } else {
            StepSpec::Ignore
        },
        Key::Backspace => if editing {
            StepSpec::Edited
        } else {
            StepSpec::Ignore
        },
        Key::Up => if !editing {
            StepSpec::MoveUp
        } else {
            StepSpec::Ignore
        },
        Key::Down => if !editing {
            StepSpec::MoveDown
        } else {
            StepSpec::Ignore
        },
        Key::Delete => if !editing {
            delete_step(form)
        } else {
            StepSpec::Ignore
        },
        _ => StepSpec::Ignore,
    }
}

/// Whether the form is editing after `key`.
pub open spec fn editing_after(form: SettingsForm, key: Key) -> bool {
    match key {
        Key::Esc => false,
        Key::Enter => if form.editing {
            !(enter_editing(form) is StopEditing)
        } else {
            enter_browsing(form) is StartEditing
        },
        _ => form.editing,
    }
}

/// The text of field `f` after `key`: typing and Backspace change the
/// edited field only.
pub open spec fn field_after(form: SettingsForm, key: Key, f: SettingsField) -> Seq<char> {
    let text = field_text(form.inputs, f);
    if form.editing && field_of(form.cursor) == Some(f) {
        match key {
            Key::Char(c) => text.push(c),
            Key::Backspace => without_last(text),
            _ => text,
        }
    } else {
        text
    }
}

/// Types or deletes a character in one field, leaving the others.
fn edit_field(inputs: &mut SettingsInputs, f: SettingsField, key: Key)
    ensures
        forall|g: SettingsField|
            #![trigger field_text(*final(inputs), g)]
            field_text(*final(inputs), g) == if g == f {
                match key {
                    Key::Char(c) => field_text(*old(inputs), g).push(c),
                    Key::Backspace => without_last(field_text(*old(inputs), g)),
                    _ => field_text(*old(inputs), g),
                }
            } else {
                field_text(*old(inputs), g)
            },
{
    let field: &mut String = match f {
        SettingsField::JaegerEndpoint => &mut inputs.jaeger_endpoint,
        SettingsField::ElevenLabsKey => &mut inputs.elevenlabs_key,
        SettingsField::OpenRouterKey => &mut inputs.openrouter_key,
        SettingsField::VoiceIds => &mut inputs.voice_ids,
        SettingsField::OpenRouterModel => &mut inputs.openrouter_model,
        SettingsField::AudioPrompt => &mut inputs.audio_prompt,
        SettingsField::TtsInactivityThreshold => &mut inputs.tts_inactivity_threshold,
    };
    match key {
        Key::Char(c) => push_char(field, c),
        Key::Backspace => pop_last(field),
        _ => {},
    }
}

/// The field that typing edits at this cursor, if any.
fn field_at(cursor: SettingsCursor) -> (r: Option<SettingsField>)
    ensures
        r == field_of(cursor),
{
    match cursor {
        SettingsCursor::General(Some(GeneralSetting::JaegerEndpoint)) => Some(
            SettingsField::JaegerEndpoint,
        ),
        SettingsCursor::Ai(Some(AiSetting::ElevenLabsApiKey)) => Some(SettingsField::ElevenLabsKey),
        SettingsCursor::Ai(Some(AiSetting::OpenRouterApiKey)) => Some(SettingsField::OpenRouterKey),
        SettingsCursor::Ai(Some(AiSetting::SelectedVoiceIds)) => Some(SettingsField::VoiceIds),
        SettingsCursor::Ai(Some(AiSetting::OpenRouterModel)) => Some(SettingsField::OpenRouterModel),
        SettingsCursor::Ai(Some(AiSetting::AudioPrompt)) => Some(SettingsField::AudioPrompt),
        SettingsCursor::Ai(Some(AiSetting::TtsInactivityThreshold)) => Some(
            SettingsField::TtsInactivityThreshold,
        ),
        _ => None,
    }
}

/// The model a model field names: its trimmed text, or none when blank.
fn chosen_model(text: &str) -> (r: Option<String>)
    ensures
        opt_view(r) == model_choice(text@),
{
    let t = trim(text);
    if t.unicode_len() == 0 {
        None
    } else {
        Some(String::from_str(t))
    }
}

/// Enter while editing.
fn enter_while_editing(form: &SettingsForm) -> (r: SettingsStep)
    ensures
        r@ == enter_editing(*form),
{
    let inputs = &form.inputs;
    match form.cursor {
        SettingsCursor::General(Some(GeneralSetting::JaegerEndpoint)) => {
            match validate_and_normalize_endpoint(inputs.jaeger_endpoint.as_str()) {
                Ok(n) => SettingsStep::Save(SaveRequest::JaegerEndpoint(n)),
                Err(e) => {
                    let mut m = String::from_str("Invalid endpoint: ");
                    m.append(e.as_str());
                    SettingsStep::Rejected(m)
                },
            }
        },
        SettingsCursor::Ai(Some(AiSetting::ElevenLabsApiKey)) => {
            if inputs.elevenlabs_key.as_str().unicode_len() > 0 {
                SettingsStep::Save(
                    SaveRequest::ApiKey(
                        ApiKeyKind::ElevenLabs,
                        String::from_str(inputs.elevenlabs_key.as_str()),
                    ),
                )
            } else {
                SettingsStep::Ignore
            }
        },
        SettingsCursor::Ai(Some(AiSetting::OpenRouterApiKey)) => {
            if inputs.openrouter_key.as_str().unicode_len() > 0 {
                SettingsStep::Save(
                    SaveRequest::ApiKey(
                        ApiKeyKind::OpenRouter,
                        String::from_str(inputs.openrouter_key.as_str()),
                    ),
                )
            } else {
                SettingsStep::Ignore
            }
        },
        SettingsCursor::Ai(Some(AiSetting::SelectedVoiceIds)) => SettingsStep::Save(
            SaveRequest::VoiceIds(comma_list(inputs.voice_ids.as_str())),
        ),
        SettingsCursor::Ai(Some(AiSetting::OpenRouterModel)) => SettingsStep::Save(
            SaveRequest::OpenRouterModel(chosen_model(inputs.openrouter_model.as_str())),
        ),
        SettingsCursor::Ai(Some(AiSetting::AudioPrompt)) => SettingsStep::Save(
            SaveRequest::AudioPrompt(String::from_str(inputs.audio_prompt.as_str())),
        ),
        SettingsCursor::Ai(Some(AiSetting::TtsInactivityThreshold)) => {
            match parse_u64(trim(inputs.tts_inactivity_threshold.as_str())) {
                Some(secs) => SettingsStep::Save(SaveRequest::TtsInactivityThreshold(secs)),
                None => SettingsStep::Rejected(
                    String::from_str("Invalid value: enter a number of seconds"),
                ),
            }
        },
        _ => SettingsStep::StopEditing,
    }
}

/// Enter while browsing.
fn enter_while_browsing(form: &SettingsForm) -> (r: SettingsStep)
    ensures
        r@ == enter_browsing(*form),
{
    match form.cursor {
        SettingsCursor::Ai(Some(AiSetting::AudioEnabled)) => SettingsStep::ToggleAudio,
        SettingsCursor::Appearance(Some(AppearanceSetting::TimeFilter)) => SettingsStep::CycleTimeFilter,
        SettingsCursor::Appearance(Some(AppearanceSetting::HideScheduled)) => SettingsStep::CycleScheduledFilter,
        SettingsCursor::Appearance(None) => SettingsStep::Ignore,
        SettingsCursor::Ai(Some(AiSetting::SelectedVoiceIds)) => SettingsStep::OpenVoiceBrowser(
            comma_list(form.inputs.voice_ids.as_str()),
        ),
        SettingsCursor::Ai(Some(AiSetting::OpenRouterModel)) => SettingsStep::OpenModelBrowser(
            chosen_model(form.inputs.openrouter_model.as_str()),
        ),
        SettingsCursor::Bunker(Some(BunkerSetting::Enabled)) => SettingsStep::ToggleBunker,
        SettingsCursor::Bunker(Some(BunkerSetting::Uri)) => SettingsStep::CopyBunkerUri,
        SettingsCursor::Bunker(Some(BunkerSetting::Rules)) => SettingsStep::OpenBunkerRules,
        SettingsCursor::Bunker(Some(BunkerSetting::Audit)) => SettingsStep::OpenBunkerAudit,
        SettingsCursor::Bunker(None) => SettingsStep::Ignore,
        _ => SettingsStep::StartEditing,
    }
}

/// Delete while browsing.
fn delete_while_browsing(form: &SettingsForm) -> (r: SettingsStep)
    ensures
        r@ == delete_step(*form),
{
    match form.cursor {
        SettingsCursor::Ai(Some(AiSetting::ElevenLabsApiKey)) => if form.elevenlabs_key_exists {
            SettingsStep::Clear(ClearTarget::ApiKey(ApiKeyKind::ElevenLabs))
        } else {
            SettingsStep::Notice(String::from_str("No ElevenLabs API key to delete"))
        },
        SettingsCursor::Ai(Some(AiSetting::OpenRouterApiKey)) => if form.openrouter_key_exists {
            SettingsStep::Clear(ClearTarget::ApiKey(ApiKeyKind::OpenRouter))
        } else {
            SettingsStep::Notice(String::from_str("No OpenRouter API key to delete"))
        },
        SettingsCursor::Ai(Some(AiSetting::SelectedVoiceIds)) => SettingsStep::Clear(
            ClearTarget::VoiceIds,
        ),
        SettingsCursor::Ai(Some(AiSetting::OpenRouterModel)) => SettingsStep::Clear(
            ClearTarget::OpenRouterModel,
        ),
        _ => SettingsStep::Ignore,
    }
}

/// Handles a key in the settings modal (with no voice or model browser
/// open): updates the editing flag and the edited field, and says what the
/// application does next.
pub fn handle_app_settings_key(form: &mut SettingsForm, key: Key) -> (r: SettingsStep)
    ensures
        r@ == settings_step(*old(form), key),
        final(form).editing == editing_after(*old(form), key),
        forall|f: SettingsField|
            #![trigger field_text(final(form).inputs, f)]
            field_text(final(form).inputs, f) == field_after(*old(form), key, f),
        final(form).cursor == old(form).cursor,
        final(form).elevenlabs_key_exists == old(form).elevenlabs_key_exists,
        final(form).openrouter_key_exists == old(form).openrouter_key_exists,
        final(form).audio_enabled == old(form).audio_enabled,
{
    let editing = form.editing;
    match key {
        Key::Tab => if !editing {
            SettingsStep::NextTab
        } else {
            SettingsStep::Ignore
        },
        Key::BackTab => if !editing {
            SettingsStep::PrevTab
        } else {
            SettingsStep::Ignore
        },
        Key::Esc => if editing {
            form.editing = false;
            SettingsStep::CancelEditing
        } else {
            SettingsStep::Close
        },
        Key::Enter => if editing {
            let r = enter_while_editing(form);
            if let SettingsStep::StopEditing = r {
                form.editing = false;
            }
            r
        } else {
            let r = enter_while_browsing(form);
            if let SettingsStep::StartEditing = r {
                form.editing = true;
            }
            r
        },
        Key::Char(_) | Key::Backspace => if editing {
            match field_at(form.cursor) {
                Some(f) => edit_field(&mut form.inputs, f, key),
                None => {},
            }
            SettingsStep::Edited
        } else {
            SettingsStep::Ignore
        },
        Key::Up => if !editing {
            SettingsStep::MoveUp
        } else {
            SettingsStep::Ignore
        },
        Key::Down => if !editing {
            SettingsStep::MoveDown
        } else {
            SettingsStep::Ignore
        },
        Key::Delete => if !editing {
            delete_while_browsing(form)
        } else {
            SettingsStep::Ignore
        },
        _ => SettingsStep::Ignore,
    }
}

/// The service an API key belongs to.
pub open spec fn key_name(kind: ApiKeyKind) -> Seq<char> {
    match kind {
        ApiKeyKind::ElevenLabs => "ElevenLabs"@,
        ApiKeyKind::OpenRouter => "OpenRouter"@,
    }
}

/// The status of a failed preference operation.
pub open spec fn failure_status(verb: Seq<char>, error: Seq<char>) -> Seq<char> {
    "Failed to "@ + verb + ": "@ + error
}

/// The status after a value was stored.
pub open spec fn saved_status(save: SaveSpec) -> Seq<char> {
    match save {
        SaveSpec::JaegerEndpoint(_) => "Jaeger endpoint saved"@,
        SaveSpec::ApiKey(kind, _) => key_name(kind) + " API key saved"@,
        SaveSpec::VoiceIds(_) => "Voice IDs saved"@,
        SaveSpec::OpenRouterModel(_) => "OpenRouter model saved"@,
        SaveSpec::AudioPrompt(_) => "Audio prompt saved"@,
        SaveSpec::TtsInactivityThreshold(secs) => "TTS inactivity threshold set to "@ + decimal(
            secs as nat,
        ) + "s"@,
    }
}

/// The field a successful save empties: an API key is not kept in the form.
pub open spec fn emptied_by_save(save: SaveSpec) -> Option<SettingsField> {
    match save {
        SaveSpec::ApiKey(ApiKeyKind::ElevenLabs, _) => Some(SettingsField::ElevenLabsKey),
        SaveSpec::ApiKey(ApiKeyKind::OpenRouter, _) => Some(SettingsField::OpenRouterKey),
        _ => None,
    }
}

/// The view of an optional error text.
pub open spec fn err_view(e: Option<&str>) -> Option<Seq<char>> {
    match e {
        Some(x) => Some(x@),
        None => None,
    }
}

fn key_name_exec(kind: ApiKeyKind) -> (r: &'static str)
    ensures
        r@ == key_name(kind),
{
    match kind {
        ApiKeyKind::ElevenLabs => "ElevenLabs",
        ApiKeyKind::OpenRouter => "OpenRouter",
    }
}

fn failure(verb: &str, error: &str) -> (r: String)
    ensures
        r@ == failure_status(verb@, error@),
{
    let mut r = String::from_str("Failed to ");
    r.append(verb);
    r.append(": ");
    r.append(error);
    r
}

/// Empties one field of the form.
fn clear_field(inputs: &mut SettingsInputs, f: SettingsField)
    ensures
        forall|g: SettingsField|
            #![trigger field_text(*final(inputs), g)]
            field_text(*final(inputs), g) == if g == f {
                Seq::<char>::empty()
            } else {
                field_text(*old(inputs), g)
            },
{
    match f {
        SettingsField::JaegerEndpoint => inputs.jaeger_endpoint = String::new(),
        SettingsField::ElevenLabsKey => inputs.elevenlabs_key = String::new(),
        SettingsField::OpenRouterKey => inputs.openrouter_key = String::new(),
        SettingsField::VoiceIds => inputs.voice_ids = String::new(),
        SettingsField::OpenRouterModel => inputs.openrouter_model = String::new(),
        SettingsField::AudioPrompt => inputs.audio_prompt = String::new(),
        SettingsField::TtsInactivityThreshold => inputs.tts_inactivity_threshold = String::new(),
    }
}

/// After the application tried to store `save`: on success editing stops,
/// a stored API key is emptied from the form and marked present, and the
/// status names what was saved; on failure (`error`) the form is left as
/// it is, still editing, and the status gives the error.
pub fn finish_save(form: &mut SettingsForm, save: &SaveRequest, error: Option<&str>) -> (r: String)
    ensures
        match error {
            Some(e) => {
                &&& r@ == failure_status("save"@, e@)
                &&& *final(form) == *old(form)
            },
            None => {
                &&& r@ == saved_status(save@)
                &&& !final(form).editing
                &&& final(form).cursor == old(form).cursor
                &&& final(form).audio_enabled == old(form).audio_enabled
                &&& final(form).elevenlabs_key_exists == (old(form).elevenlabs_key_exists || emptied_by_save(save@) == Some(SettingsField::ElevenLabsKey))
                &&& final(form).openrouter_key_exists == (old(form).openrouter_key_exists || emptied_by_save(save@) == Some(SettingsField::OpenRouterKey))
                &&& forall|f: SettingsField|
                    #![trigger field_text(final(form).inputs, f)]
                    field_text(final(form).inputs, f) == if emptied_by_save(save@) == Some(f) {
                        Seq::<char>::empty()
                    } else {
                        field_text(old(form).inputs, f)
                    }
            },
        },
{
    match error {
        Some(e) => failure("save", e),
        None => {
            form.editing = false;
            match save {
                SaveRequest::JaegerEndpoint(_) => String::from_str("Jaeger endpoint saved"),
                SaveRequest::ApiKey(kind, _) => {
                    match kind {
                        ApiKeyKind::ElevenLabs => {
                            clear_field(&mut form.inputs, SettingsField::ElevenLabsKey);
                            form.elevenlabs_key_exists = true;
                        },
                        ApiKeyKind::OpenRouter => {
                            clear_field(&mut form.inputs, SettingsField::OpenRouterKey);
                            form.openrouter_key_exists = true;
                        },
                    }
                    let mut r = String::from_str(key_name_exec(*kind));
                    r.append(" API key saved");
                    r
                },
                SaveRequest::VoiceIds(_) => String::from_str("Voice IDs saved"),
                SaveRequest::OpenRouterModel(_) => String::from_str("OpenRouter model saved"),
                SaveRequest::AudioPrompt(_) => String::from_str("Audio prompt saved"),
                SaveRequest::TtsInactivityThreshold(secs) => {
                    let mut r = String::from_str("TTS inactivity threshold set to ");
                    push_decimal_u64(&mut r, *secs);
                    r.append("s");
                    r
                },
            }
        },
    }
}

/// The status after a value was deleted or cleared.
pub open spec fn cleared_status(target: ClearTarget) -> Seq<char> {
    match target {
        ClearTarget::ApiKey(kind) => key_name(kind) + " API key deleted"@,
        ClearTarget::VoiceIds => "Voice IDs cleared"@,
        ClearTarget::OpenRouterModel => "OpenRouter model cleared"@,
    }
}

/// The verb of a failed delete or clear.
pub open spec fn clear_verb(target: ClearTarget) -> Seq<char> {
    match target {
        ClearTarget::ApiKey(_) => "delete"@,
        _ => "clear"@,
    }
}

/// The field emptied when a stored value is cleared.
pub open spec fn emptied_by_clear(target: ClearTarget) -> Option<SettingsField> {
    match target {
        ClearTarget::ApiKey(_) => None,
        ClearTarget::VoiceIds => Some(SettingsField::VoiceIds),
        ClearTarget::OpenRouterModel => Some(SettingsField::OpenRouterModel),
    }
}

/// After the application tried to delete or clear `target`: on success a
/// deleted key is marked absent or the cleared field is emptied; on
/// failure the form is left as it is. Returns the status line.
pub fn finish_clear(form: &mut SettingsForm, target: ClearTarget, error: Option<&str>) -> (r: String)
    ensures
        match error {
            Some(e) => {
                &&& r@ == failure_status(clear_verb(target), e@)
                &&& *final(form) == *old(form)
            },
            None => {
                &&& r@ == cleared_status(target)
                &&& final(form).editing == old(form).editing
                &&& final(form).cursor == old(form).cursor
                &&& final(form).audio_enabled == old(form).audio_enabled
                &&& final(form).elevenlabs_key_exists == (old(form).elevenlabs_key_exists && target != ClearTarget::ApiKey(ApiKeyKind::ElevenLabs))
                &&& final(form).openrouter_key_exists == (old(form).openrouter_key_exists && target != ClearTarget::ApiKey(ApiKeyKind::OpenRouter))
                &&& forall|f: SettingsField|
                    #![trigger field_text(final(form).inputs, f)]
                    field_text(final(form).inputs, f) == if emptied_by_clear(target) == Some(f) {
                        Seq::<char>::empty()
                    } else {
                        field_text(old(form).inputs, f)
                    }
            },
        },
{
    match error {
        Some(e) => match target {
            ClearTarget::ApiKey(_) => failure("delete", e),
            _ => failure("clear", e),
        },
        None => match target {
            ClearTarget::ApiKey(kind) => {
                match kind {
                    ApiKeyKind::ElevenLabs => form.elevenlabs_key_exists = false,
                    ApiKeyKind::OpenRouter => form.openrouter_key_exists = false,
                }
                let mut r = String::from_str(key_name_exec(kind));
                r.append(" API key deleted");
                r
            },
            ClearTarget::VoiceIds => {
                clear_field(&mut form.inputs, SettingsField::VoiceIds);
                String::from_str("Voice IDs cleared")
            },
            ClearTarget::OpenRouterModel => {
                clear_field(&mut form.inputs, SettingsField::OpenRouterModel);
                String::from_str("OpenRouter model cleared")
            },
        },
    }
}

/// The status after audio notifications were switched on or off.
pub open spec fn audio_toggled_status(enabled: bool) -> Seq<char> {
    "Audio notifications "@ + if enabled {
        "enabled"@
    } else {
        "disabled"@
    }
}

/// After the application toggled audio notifications: the form shows the
/// new setting and the status says it; on failure nothing changes.
pub fn finish_toggle_audio(form: &mut SettingsForm, result: Result<bool, &str>) -> (r: String)
    ensures
        match result {
            Ok(enabled) => {
                &&& r@ == audio_toggled_status(enabled)
                &&& *final(form) == (SettingsForm { audio_enabled: enabled, ..*old(form) })
            },
            Err(e) => {
                &&& r@ == failure_status("toggle"@, e@)
                &&& *final(form) == *old(form)
            },
        },
{
    match result {
        Ok(enabled) => {
            form.audio_enabled = enabled;
            let mut r = String::from_str("Audio notifications ");
            if enabled {
                r.append("enabled");
            } else {
                r.append("disabled");
            }
            r
        },
        Err(e) => failure("toggle", e),
    }
}

/// The values stored in the preferences that cancelled edits go back to.
#[derive(Debug, Clone)]
pub struct SavedSettings {
    pub jaeger_endpoint: String,
    pub voice_ids: Vec<String>,
    pub openrouter_model: Option<String>,
    pub audio_prompt: String,
    pub tts_inactivity_threshold_secs: u64,
}

/// A field's text after a cancelled edit on the tab at `cursor`: the
/// General tab reloads the endpoint; the AI tab empties the key fields and
/// reloads the others; other tabs have no text to reload.
pub open spec fn restored_field(
    cursor: SettingsCursor,
    inputs: SettingsInputs,
    saved: SavedSettings,
    f: SettingsField,
) -> Seq<char> {
    match cursor {
        SettingsCursor::General(Some(GeneralSetting::JaegerEndpoint)) => if f
            == SettingsField::JaegerEndpoint {
            saved.jaeger_endpoint@
        } else {
            field_text(inputs, f)
        },
        SettingsCursor::Ai(_) => match f {
            SettingsField::ElevenLabsKey => Seq::<char>::empty(),
            SettingsField::OpenRouterKey => Seq::<char>::empty(),
            SettingsField::VoiceIds => join_comma(string_views(saved.voice_ids@)),
            SettingsField::OpenRouterModel => match saved.openrouter_model {
                Some(m) => m@,
                None => Seq::<char>::empty(),
            },
            SettingsField::AudioPrompt => saved.audio_prompt@,
            SettingsField::TtsInactivityThreshold => decimal(
                saved.tts_inactivity_threshold_secs as nat,
            ),
            SettingsField::JaegerEndpoint => field_text(inputs, f),
        },
        _ => field_text(inputs, f),
    }
}

/// After a cancelled edit, reloads the current tab's fields from the
/// stored preferences.
pub fn restore_inputs(form: &mut SettingsForm, saved: &SavedSettings)
    ensures
        forall|f: SettingsField|
            #![trigger field_text(final(form).inputs, f)]
            field_text(final(form).inputs, f) == restored_field(
                old(form).cursor,
                old(form).inputs,
                *saved,
                f,
            ),
        final(form).cursor == old(form).cursor,
        final(form).editing == old(form).editing,
        final(form).elevenlabs_key_exists == old(form).elevenlabs_key_exists,
        final(form).openrouter_key_exists == old(form).openrouter_key_exists,
        final(form).audio_enabled == old(form).audio_enabled,
{
    match form.cursor {
        SettingsCursor::General(Some(GeneralSetting::JaegerEndpoint)) => {
            form.inputs.jaeger_endpoint = String::from_str(saved.jaeger_endpoint.as_str());
        },
        SettingsCursor::Ai(_) => {
            form.inputs.elevenlabs_key = String::new();
            form.inputs.openrouter_key = String::new();
            form.inputs.voice_ids = join_with_commas(&saved.voice_ids);
            form.inputs.openrouter_model = match &saved.openrouter_model {
                Some(m) => String::from_str(m.as_str()),
                None => String::new(),
            };
            form.inputs.audio_prompt = String::from_str(saved.audio_prompt.as_str());
            let mut secs = String::new();
            push_decimal_u64(&mut secs, saved.tts_inactivity_threshold_secs);
            assert(secs@ =~= decimal(saved.tts_inactivity_threshold_secs as nat));
            form.inputs.tts_inactivity_threshold = secs;
        },
        _ => {},
    }
}

/// The status after the bunker was switched: started or stopped, or, when
/// switched on before login, that it starts after login.
pub open spec fn bunker_toggled_status(target_enabled: bool, logged_in: bool, error: Option<
    Seq<char>,
>) -> Seq<char> {
    match error {
        Some(e) => "Failed to update bunker setting: "@ + e,
        None => if target_enabled && !logged_in {
            "Bunker enabled. It will auto-start after login."@
        } else if target_enabled {
            "Bunker started"@
        } else {
            "Bunker stopped"@
        },
    }
}

/// The status after the application switched the bunker to
/// `target_enabled`, or failed to (`error`).
pub fn bunker_toggled(target_enabled: bool, logged_in: bool, error: Option<&str>) -> (r: String)
    ensures
        r@ == bunker_toggled_status(target_enabled, logged_in, err_view(error)),
{
    match error {
        Some(e) => {
            let mut r = String::from_str("Failed to update bunker setting: ");
            r.append(e);
            r
        },
        None => if target_enabled && !logged_in {
            String::from_str("Bunker enabled. It will auto-start after login.")
        } else if target_enabled {
            String::from_str("Bunker started")
        } else {
            String::from_str("Bunker stopped")
        },
    }
}

/// How copying the bunker URI went.
#[derive(Debug, Clone, Copy, PartialEq, Eq, Structural)]
pub enum UriCopy {
    /// The bunker is not running, so it has no URI.
    NotRunning,
    Copied,
    /// The clipboard refused the text.
    CopyFailed,
    /// The clipboard could not be opened.
    ClipboardUnavailable,
}

/// The status after copying the bunker URI.
pub fn uri_copy_status(outcome: UriCopy) -> (r: String)
    ensures
        r@ == match outcome {
            UriCopy::NotRunning => "Bunker is not running"@,
            UriCopy::Copied => "Bunker URI copied to clipboard"@,
            UriCopy::CopyFailed => "Failed to copy bunker URI"@,
            UriCopy::ClipboardUnavailable => "Failed to access clipboard"@,
        },
{
    match outcome {
        UriCopy::NotRunning => String::from_str("Bunker is not running"),
        UriCopy::Copied => String::from_str("Bunker URI copied to clipboard"),
        UriCopy::CopyFailed => String::from_str("Failed to copy bunker URI"),
        UriCopy::ClipboardUnavailable => String::from_str("Failed to access clipboard"),
    }
}

/// The voice browser or the model browser of the AI tab.
#[derive(Debug, Clone, Copy, PartialEq, Eq, Structural)]
pub enum BrowserKind {
    Voices,
    Models,
}

/// The status when a browser cannot open for want of its API key.
pub fn missing_key_status(kind: BrowserKind) -> (r: String)
    ensures
        r@ == match kind {
            BrowserKind::Voices => "Set ElevenLabs API key first"@,
            BrowserKind::Models => "Set OpenRouter API key first"@,
        },
{
    match kind {
        BrowserKind::Voices => String::from_str("Set ElevenLabs API key first"),
        BrowserKind::Models => String::from_str("Set OpenRouter API key first"),
    }
}

/// The status when a browser's list could not be fetched; the browser
/// closes.
pub fn fetch_failed_status(kind: BrowserKind, error: &str) -> (r: String)
    ensures
        r@ == match kind {
            BrowserKind::Voices => "Failed to fetch voices: "@,
            BrowserKind::Models => "Failed to fetch models: "@,
        } + error@,
{
    let mut r = match kind {
        BrowserKind::Voices => String::from_str("Failed to fetch voices: "),
        BrowserKind::Models => String::from_str("Failed to fetch models: "),
    };
    r.append(error);
    r
}

/// What a key does in a voice or model browser.
#[derive(Debug, Clone, Copy, PartialEq, Eq, Structural)]
pub enum BrowserStep {
    Close,
    MoveUp,
    /// Move down within the filtered list.
    MoveDown,
    /// Choose or unchoose the voice under the cursor.
    ToggleSelected,
    /// Store the choice and close the browser.
    Confirm,
    AddFilterChar(char),
    BackspaceFilter,
    Ignore,
}

/// What `key` does in a browser of `kind`: while the list loads only
/// Escape works; space toggles a voice, but is typed into a model filter.
pub open spec fn browser_step(kind: BrowserKind, loading: bool, key: Key) -> BrowserStep {
    if loading {
        if key == Key::Esc {
            BrowserStep::Close
        } else {
            BrowserStep::Ignore
        }
    } else {
        match key {
            Key::Esc => BrowserStep::Close,
            Key::Up => BrowserStep::MoveUp,
            Key::Down => BrowserStep::MoveDown,
            Key::Enter => BrowserStep::Confirm,
            Key::Char(c) => if c == ' ' && kind == BrowserKind::Voices {
                BrowserStep::ToggleSelected
            } else {
                BrowserStep::AddFilterChar(c)
            },
            Key::Backspace => BrowserStep::BackspaceFilter,
            _ => BrowserStep::Ignore,
        }
    }
}

/// Handles a key in the voice or model browser.
pub fn handle_browser_key(kind: BrowserKind, loading: bool, key: Key) -> (r: BrowserStep)
    ensures
        r == browser_step(kind, loading, key),
{
    if loading {
        if key == Key::Esc {
            BrowserStep::Close
        } else {
            BrowserStep::Ignore
        }
    } else {
        match key {
            Key::Esc => BrowserStep::Close,
            Key::Up => BrowserStep::MoveUp,
            Key::Down => BrowserStep::MoveDown,
            Key::Enter => BrowserStep::Confirm,
            Key::Char(c) => if c == ' ' && kind == BrowserKind::Voices {
                BrowserStep::ToggleSelected
            } else {
                BrowserStep::AddFilterChar(c)
            },
            Key::Backspace => BrowserStep::BackspaceFilter,
            _ => BrowserStep::Ignore,
        }
    }
}

/// After the voices chosen in the browser were stored (or not): on success
/// the voice field lists them, comma-separated, and the status counts
/// them; on failure the form is unchanged.
pub fn finish_voice_choice(form: &mut SettingsForm, ids: &Vec<String>, error: Option<&str>) -> (r:
    String)
    ensures
        match error {
            Some(e) => {
                &&& r@ == failure_status("save"@, e@)
                &&& *final(form) == *old(form)
            },
            None => {
                &&& r@ == decimal(ids@.len()) + " voice(s) saved"@
                &&& final(form).inputs == (SettingsInputs {
                    voice_ids: final(form).inputs.voice_ids,
                    ..old(form).inputs
                })
                &&& final(form).inputs.voice_ids@ == join_comma(string_views(ids@))
                &&& *final(form) == (SettingsForm { inputs: final(form).inputs, ..*old(form) })
            },
        },
{
    match error {
        Some(e) => failure("save", e),
        None => {
            form.inputs.voice_ids = join_with_commas(ids);
            let mut r = String::new();
            push_decimal(&mut r, ids.len());
            r.append(" voice(s) saved");
            r
        },
    }
}

/// After the model chosen in the browser was stored (or not): on success
/// the model field holds its id and the status names it (by its display
/// name when it has one); on failure the form is unchanged.
pub fn finish_model_choice(form: &mut SettingsForm, id: &str, name: Option<&str>, error: Option<
    &str,
>) -> (r: String)
    ensures
        match error {
            Some(e) => {
                &&& r@ == failure_status("save"@, e@)
                &&& *final(form) == *old(form)
            },
            None => {
                &&& r@ == "Model set: "@ + match name {
                    Some(n) => n@,
                    None => id@,
                }
                &&& final(form).inputs == (SettingsInputs {
                    openrouter_model: final(form).inputs.openrouter_model,
                    ..old(form).inputs
                })
                &&& final(form).inputs.openrouter_model@ == id@
                &&& *final(form) == (SettingsForm { inputs: final(form).inputs, ..*old(form) })
            },
        },
{
    match error {
        Some(e) => failure("save", e),
        None => {
            form.inputs.openrouter_model = String::from_str(id);
            let mut r = String::from_str("Model set: ");
            match name {
                Some(n) => r.append(n),
                None => r.append(id),
            }
            r
        },
    }
}

/// The API key row a kind of key is edited, saved and deleted on.
pub open spec fn api_key_row(kind: ApiKeyKind) -> SettingsCursor {
    match kind {
        ApiKeyKind::ElevenLabs => SettingsCursor::Ai(Some(AiSetting::ElevenLabsApiKey)),
        ApiKeyKind::OpenRouter => SettingsCursor::Ai(Some(AiSetting::OpenRouterApiKey)),
    }
}

/// The text field an API key is typed into.
pub open spec fn api_key_field(kind: ApiKeyKind) -> SettingsField {
    match kind {
        ApiKeyKind::ElevenLabs => SettingsField::ElevenLabsKey,
        ApiKeyKind::OpenRouter => SettingsField::OpenRouterKey,
    }
}

/// An API key is saved under the kind of the row it was typed on: Enter
/// while editing a non-empty key field saves that field's text as a key of
/// that kind, and any key that Enter saves is the text of the field of its
/// own kind, typed on that kind's row. Delete on a key row deletes (or
/// reports the absence of) that same kind of key, so a key row never saves
/// one kind and deletes another; the two kinds have different rows.
pub proof fn lemma_api_keys_saved_under_their_kind(form: SettingsForm, kind: ApiKeyKind)
    ensures
        form.editing && form.cursor == api_key_row(kind) && field_text(form.inputs, api_key_field(kind)).len() > 0
            ==> settings_step(form, Key::Enter) == StepSpec::Save(
            SaveSpec::ApiKey(kind, field_text(form.inputs, api_key_field(kind))),
        ),
        settings_step(form, Key::Enter) matches StepSpec::Save(SaveSpec::ApiKey(k, v)) ==> form.editing
            && form.cursor == api_key_row(k) && field_of(form.cursor) == Some(api_key_field(k)) && v
            == field_text(form.inputs, api_key_field(k)),
        settings_step(form, Key::Delete) matches StepSpec::Clear(ClearTarget::ApiKey(k)) ==> !form.editing
            && form.cursor == api_key_row(k),
        !form.editing && form.cursor == api_key_row(kind) ==> (settings_step(form, Key::Delete)
            == StepSpec::Clear(ClearTarget::ApiKey(kind)) || settings_step(form, Key::Delete)
            == StepSpec::Notice(no_key_status(kind))),
        api_key_row(ApiKeyKind::ElevenLabs) != api_key_row(ApiKeyKind::OpenRouter),
{
}

} // verus!
