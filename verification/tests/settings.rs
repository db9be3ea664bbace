use tenex_tui::fields::{comma_list, join_with_commas, parse_u64, pop_last};
use tenex_tui::keys::Key;
use tenex_tui::settings::{
    bunker_toggled, fetch_failed_status, finish_clear, finish_model_choice, finish_save,
    finish_toggle_audio, finish_voice_choice, handle_app_settings_key, handle_browser_key,
    missing_key_status, restore_inputs, uri_copy_status, AiSetting, ApiKeyKind, AppearanceSetting,
    BrowserKind, BrowserStep, BunkerSetting, ClearTarget, GeneralSetting, SaveRequest,
    SavedSettings, SettingsCursor, SettingsForm, SettingsInputs, SettingsStep, UriCopy,
};

fn form(cursor: SettingsCursor, editing: bool) -> SettingsForm {
    SettingsForm {
        cursor,
        editing,
        inputs: SettingsInputs {
            jaeger_endpoint: String::new(),
            elevenlabs_key: String::new(),
            openrouter_key: String::new(),
            voice_ids: String::new(),
            openrouter_model: String::new(),
            audio_prompt: String::new(),
            tts_inactivity_threshold: String::new(),
        },
        elevenlabs_key_exists: false,
        openrouter_key_exists: false,
        audio_enabled: false,
    }
}

#[test]
fn typing_edits_the_selected_field_only() {
    let mut f = form(SettingsCursor::General(Some(GeneralSetting::JaegerEndpoint)), true);
    for c in "http://x/".chars() {
        assert_eq!(handle_app_settings_key(&mut f, Key::Char(c)), SettingsStep::Edited);
    }
    assert_eq!(f.inputs.jaeger_endpoint, "http://x/");
    handle_app_settings_key(&mut f, Key::Backspace);
    assert_eq!(f.inputs.jaeger_endpoint, "http://x");
    assert_eq!(f.inputs.audio_prompt, "");
    let mut g = form(SettingsCursor::General(Some(GeneralSetting::JaegerEndpoint)), false);
    assert_eq!(handle_app_settings_key(&mut g, Key::Char('a')), SettingsStep::Ignore);
    assert_eq!(g.inputs.jaeger_endpoint, "");
}

#[test]
fn enter_saves_a_normalized_endpoint_or_rejects_it() {
    let mut f = form(SettingsCursor::General(Some(GeneralSetting::JaegerEndpoint)), true);
    f.inputs.jaeger_endpoint = " http://localhost:16686// ".to_string();
    assert_eq!(
        handle_app_settings_key(&mut f, Key::Enter),
        SettingsStep::Save(SaveRequest::JaegerEndpoint("http://localhost:16686".to_string()))
    );
    assert!(f.editing);
    f.inputs.jaeger_endpoint = "localhost".to_string();
    assert_eq!(
        handle_app_settings_key(&mut f, Key::Enter),
        SettingsStep::Rejected(
            "Invalid endpoint: Jaeger endpoint must start with http:// or https://".to_string()
        )
    );
    assert!(f.editing);
}

#[test]
fn enter_saves_voice_ids_model_and_threshold() {
    let mut f = form(SettingsCursor::Ai(Some(AiSetting::SelectedVoiceIds)), true);
    f.inputs.voice_ids = " a, ,b ,c".to_string();
    assert_eq!(
        handle_app_settings_key(&mut f, Key::Enter),
        SettingsStep::Save(SaveRequest::VoiceIds(vec!["a".into(), "b".into(), "c".into()]))
    );
    let mut m = form(SettingsCursor::Ai(Some(AiSetting::OpenRouterModel)), true);
    m.inputs.openrouter_model = "   ".to_string();
    assert_eq!(handle_app_settings_key(&mut m, Key::Enter), SettingsStep::Save(SaveRequest::OpenRouterModel(None)));
    let mut t = form(SettingsCursor::Ai(Some(AiSetting::TtsInactivityThreshold)), true);
    t.inputs.tts_inactivity_threshold = " 45 ".to_string();
    assert_eq!(handle_app_settings_key(&mut t, Key::Enter), SettingsStep::Save(SaveRequest::TtsInactivityThreshold(45)));
    t.inputs.tts_inactivity_threshold = "4x".to_string();
    assert_eq!(
        handle_app_settings_key(&mut t, Key::Enter),
        SettingsStep::Rejected("Invalid value: enter a number of seconds".to_string())
    );
    let mut k = form(SettingsCursor::Ai(Some(AiSetting::ElevenLabsApiKey)), true);
    assert_eq!(handle_app_settings_key(&mut k, Key::Enter), SettingsStep::Ignore);
    k.inputs.elevenlabs_key = "sk".to_string();
    assert_eq!(
        handle_app_settings_key(&mut k, Key::Enter),
        SettingsStep::Save(SaveRequest::ApiKey(ApiKeyKind::ElevenLabs, "sk".to_string()))
    );
    let mut a = form(SettingsCursor::Ai(Some(AiSetting::AudioEnabled)), true);
    assert_eq!(handle_app_settings_key(&mut a, Key::Enter), SettingsStep::StopEditing);
    assert!(!a.editing);
}

#[test]
fn enter_while_browsing() {
    let mut f = form(SettingsCursor::Ai(Some(AiSetting::AudioEnabled)), false);
    assert_eq!(handle_app_settings_key(&mut f, Key::Enter), SettingsStep::ToggleAudio);
    let mut f = form(SettingsCursor::Appearance(Some(AppearanceSetting::HideScheduled)), false);
    assert_eq!(handle_app_settings_key(&mut f, Key::Enter), SettingsStep::CycleScheduledFilter);
    let mut f = form(SettingsCursor::Bunker(Some(BunkerSetting::Audit)), false);
    assert_eq!(handle_app_settings_key(&mut f, Key::Enter), SettingsStep::OpenBunkerAudit);
    let mut f = form(SettingsCursor::Ai(Some(AiSetting::SelectedVoiceIds)), false);
    f.inputs.voice_ids = "x, y".to_string();
    assert_eq!(
        handle_app_settings_key(&mut f, Key::Enter),
        SettingsStep::OpenVoiceBrowser(vec!["x".into(), "y".into()])
    );
    let mut f = form(SettingsCursor::Ai(Some(AiSetting::AudioPrompt)), false);
    assert_eq!(handle_app_settings_key(&mut f, Key::Enter), SettingsStep::StartEditing);
    assert!(f.editing);
    assert_eq!(handle_app_settings_key(&mut f, Key::Esc), SettingsStep::CancelEditing);
    assert!(!f.editing);
    assert_eq!(handle_app_settings_key(&mut f, Key::Esc), SettingsStep::Close);
    assert_eq!(handle_app_settings_key(&mut f, Key::Tab), SettingsStep::NextTab);
    assert_eq!(handle_app_settings_key(&mut f, Key::BackTab), SettingsStep::PrevTab);
    assert_eq!(handle_app_settings_key(&mut f, Key::Down), SettingsStep::MoveDown);
}

#[test]
fn delete_clears_keys_and_values() {
    let mut f = form(SettingsCursor::Ai(Some(AiSetting::OpenRouterApiKey)), false);
    assert_eq!(
        handle_app_settings_key(&mut f, Key::Delete),
        SettingsStep::Notice("No OpenRouter API key to delete".to_string())
    );
    f.openrouter_key_exists = true;
    assert_eq!(
        handle_app_settings_key(&mut f, Key::Delete),
        SettingsStep::Clear(ClearTarget::ApiKey(ApiKeyKind::OpenRouter))
    );
    assert_eq!(finish_clear(&mut f, ClearTarget::ApiKey(ApiKeyKind::OpenRouter), None), "OpenRouter API key deleted");
    assert!(!f.openrouter_key_exists);
    f.inputs.voice_ids = "a".to_string();
    assert_eq!(finish_clear(&mut f, ClearTarget::VoiceIds, Some("disk full")), "Failed to clear: disk full");
    assert_eq!(f.inputs.voice_ids, "a");
    assert_eq!(finish_clear(&mut f, ClearTarget::VoiceIds, None), "Voice IDs cleared");
    assert_eq!(f.inputs.voice_ids, "");
}

#[test]
fn save_outcomes() {
    let mut f = form(SettingsCursor::Ai(Some(AiSetting::ElevenLabsApiKey)), true);
    f.inputs.elevenlabs_key = "sk".to_string();
    let save = SaveRequest::ApiKey(ApiKeyKind::ElevenLabs, "sk".to_string());
    assert_eq!(finish_save(&mut f, &save, Some("locked")), "Failed to save: locked");
    assert!(f.editing);
    assert_eq!(finish_save(&mut f, &save, None), "ElevenLabs API key saved");
    assert!(!f.editing);
    assert!(f.elevenlabs_key_exists);
    assert_eq!(f.inputs.elevenlabs_key, "");
    let mut t = form(SettingsCursor::Ai(Some(AiSetting::TtsInactivityThreshold)), true);
    assert_eq!(
        finish_save(&mut t, &SaveRequest::TtsInactivityThreshold(30), None),
        "TTS inactivity threshold set to 30s"
    );
    assert_eq!(finish_toggle_audio(&mut t, Ok(true)), "Audio notifications enabled");
    assert!(t.audio_enabled);
    assert_eq!(finish_toggle_audio(&mut t, Err("io")), "Failed to toggle: io");
}

#[test]
fn cancelled_edit_reloads_stored_values() {
    let mut f = form(SettingsCursor::Ai(Some(AiSetting::AudioPrompt)), false);
    f.inputs.elevenlabs_key = "typed".to_string();
    f.inputs.audio_prompt = "draft".to_string();
    let saved = SavedSettings {
        jaeger_endpoint: "http://j".to_string(),
        voice_ids: vec!["v1".to_string(), "v2".to_string()],
        openrouter_model: None,
        audio_prompt: "Say it".to_string(),
        tts_inactivity_threshold_secs: 120,
    };
    restore_inputs(&mut f, &saved);
    assert_eq!(f.inputs.elevenlabs_key, "");
    assert_eq!(f.inputs.voice_ids, "v1, v2");
    assert_eq!(f.inputs.openrouter_model, "");
    assert_eq!(f.inputs.audio_prompt, "Say it");
    assert_eq!(f.inputs.tts_inactivity_threshold, "120");
    assert_eq!(f.inputs.jaeger_endpoint, "");
}

#[test]
fn bunker_and_browser_statuses() {
    assert_eq!(bunker_toggled(true, false, None), "Bunker enabled. It will auto-start after login.");
    assert_eq!(bunker_toggled(true, true, None), "Bunker started");
    assert_eq!(bunker_toggled(false, true, None), "Bunker stopped");
    assert_eq!(bunker_toggled(false, true, Some("x")), "Failed to update bunker setting: x");
    assert_eq!(uri_copy_status(UriCopy::NotRunning), "Bunker is not running");
    assert_eq!(missing_key_status(BrowserKind::Models), "Set OpenRouter API key first");
    assert_eq!(fetch_failed_status(BrowserKind::Voices, "401"), "Failed to fetch voices: 401");
    assert_eq!(handle_browser_key(BrowserKind::Voices, true, Key::Down), BrowserStep::Ignore);
    assert_eq!(handle_browser_key(BrowserKind::Voices, true, Key::Esc), BrowserStep::Close);
    assert_eq!(handle_browser_key(BrowserKind::Voices, false, Key::Char(' ')), BrowserStep::ToggleSelected);
    assert_eq!(handle_browser_key(BrowserKind::Models, false, Key::Char(' ')), BrowserStep::AddFilterChar(' '));
    let mut f = form(SettingsCursor::Ai(None), false);
    let ids = vec!["a".to_string(), "b".to_string()];
    assert_eq!(finish_voice_choice(&mut f, &ids, None), "2 voice(s) saved");
    assert_eq!(f.inputs.voice_ids, "a, b");
    assert_eq!(finish_model_choice(&mut f, "openai/gpt", Some("GPT"), None), "Model set: GPT");
    assert_eq!(f.inputs.openrouter_model, "openai/gpt");
    assert_eq!(finish_model_choice(&mut f, "m2", None, None), "Model set: m2");
}

#[test]
fn text_field_helpers() {
    let mut s = "ab".to_string();
    pop_last(&mut s);
    assert_eq!(s, "a");
    pop_last(&mut s);
    pop_last(&mut s);
    assert_eq!(s, "");
    assert_eq!(comma_list(""), Vec::<String>::new());
    assert_eq!(comma_list(",,"), Vec::<String>::new());
    assert_eq!(join_with_commas(&vec![]), "");
    assert_eq!(parse_u64("+7"), Some(7));
    assert_eq!(parse_u64("+"), None);
    assert_eq!(parse_u64(""), None);
    assert_eq!(parse_u64("-1"), None);
    assert_eq!(parse_u64("18446744073709551615"), Some(u64::MAX));
    assert_eq!(parse_u64("18446744073709551616"), None);
    assert_eq!(parse_u64("007"), Some(7));
}

#[test]
fn comma_list_reads_back_the_joined_items() {
    let items = vec!["model-a".to_string(), "model b".to_string(), "o3".to_string()];
    let field_text = join_with_commas(&items);
    assert_eq!(field_text, "model-a, model b, o3");
    assert_eq!(comma_list(&field_text), items);
    assert_eq!(comma_list(&join_with_commas(&vec![])), Vec::<String>::new());
}
