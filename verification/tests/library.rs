use sai::artillery::ArmaParseError;
use sai::commander::{chat_failure_message, follow_up, ChatFailure, FollowUp};
use sai::http::spoken_text;
use sai::artillery::{
    eta_reply, eta_request, fire_reply, fire_request, Artillery, ArtilleryRegistry, EtaOrder,
    EtaOutcome, FireOrder, Round,
};
use sai::audio::{PanState, Side};
use sai::commander::{
    system_prompt, tool_kind, unknown_tool_reply, Commander, Completion, FinishReason, Role, Step,
    ToolCall, ToolKind,
};
use sai::http::{
    audio_file_name, speak_reply, speak_url, speech_result, spoke_field_action, spoke_reply,
    AudioFile, FieldAction, ReplyBody, SpeechOutcome, SpokeOutcome,
};
use sai::recording::{
    sample_format, wav_spec_from_config, CurrentRecording, CurrentRecordingInner, SampleFormat,
};
use sai::settings::{SettingValue, Settings};
use sai::text::{compact_grid, replace_all, same_text, starts_with};
use sai::tools::{
    commander_tools, tool_artillery_available_schema, tool_artillery_eta_schema,
    tool_artillery_fire_schema, ParamKind,
};

fn text(v: &Option<SettingValue>) -> Option<String> {
    match v {
        Some(SettingValue::String(s)) => Some(s.clone()),
        _ => None,
    }
}

#[test]
fn settings_start_with_the_api_key() {
    let s = Settings::from_env_key(Some("sk-test".to_string()));
    assert_eq!(text(&s.get("OPENAI_API_KEY")), Some("sk-test".to_string()));
    let s = Settings::from_env_key(None);
    assert_eq!(text(&s.get("OPENAI_API_KEY")), Some(String::new()));
    assert!(s.get("HOST").is_none());
}

#[test]
fn settings_read_after_write() {
    let mut s = Settings::from_env_key(None);
    s.set("HOST".to_string(), SettingValue::String("http://localhost:8521".to_string()));
    s.set("VOLUME".to_string(), SettingValue::Number(0.5f64.to_bits()));
    assert_eq!(text(&s.get("HOST")), Some("http://localhost:8521".to_string()));
    s.set("HOST".to_string(), SettingValue::String("http://other".to_string()));
    assert_eq!(text(&s.get("HOST")), Some("http://other".to_string()));
    match s.get("VOLUME") {
        Some(SettingValue::Number(b)) => assert_eq!(f64::from_bits(b), 0.5),
        other => panic!("unexpected {other:?}"),
    }
}

#[test]
fn settings_copy_arrays() {
    let mut s = Settings::from_env_key(None);
    let v = SettingValue::Array(vec![
        SettingValue::Boolean(true),
        SettingValue::Array(vec![SettingValue::Null, SettingValue::Unknown("x".to_string())]),
    ]);
    s.set("LIST".to_string(), v);
    match s.get("LIST") {
        Some(SettingValue::Array(items)) => {
            assert_eq!(items.len(), 2);
            assert!(matches!(items[0], SettingValue::Boolean(true)));
            match &items[1] {
                SettingValue::Array(inner) => {
                    assert!(matches!(inner[0], SettingValue::Null));
                    assert!(matches!(&inner[1], SettingValue::Unknown(u) if u == "x"));
                }
                other => panic!("unexpected {other:?}"),
            }
        }
        other => panic!("unexpected {other:?}"),
    }
}

#[test]
fn settings_api_key_is_write_only() {
    let s = Settings::from_env_key(Some("secret".to_string()));
    assert_eq!(
        s.read_for_user("OPENAI_API_KEY").err(),
        Some("Key OPENAI_API_KEY is write-only".to_string())
    );
    assert_eq!(s.read_for_user("HOST").err(), Some("Key HOST not found".to_string()));
    let mut s = s;
    s.set("HOST".to_string(), SettingValue::String("h".to_string()));
    assert!(matches!(s.read_for_user("HOST"), Ok(SettingValue::String(h)) if h == "h"));
}

#[test]
fn settings_give_the_api_key_for_a_client() {
    let mut s = Settings::from_env_key(Some("k".to_string()));
    assert_eq!(s.openai_api_key(), Ok("k".to_string()));
    s.set("OPENAI_API_KEY".to_string(), SettingValue::Boolean(false));
    assert_eq!(s.openai_api_key(), Err("OPENAI_API_KEY is not a string".to_string()));
}

#[test]
fn settings_missing_api_key() {
    let s = Settings::from_env_key(None);
    assert!(s.get("MISSING").is_none());
    assert_eq!(s.read_for_user("MISSING").err(), Some("Key MISSING not found".to_string()));
}

fn unit(id: &str, name: &str, rounds: Vec<Round>) -> Artillery {
    Artillery { id: id.to_string(), name: name.to_string(), rounds }
}

#[test]
fn registry_insert_get_remove() {
    let mut r = ArtilleryRegistry::new();
    assert!(r.get("1:1").is_none());
    r.insert(unit("1:1", "Seara", vec![Round {
        classname: "he_177".to_string(),
        display_name: "175mm HE".to_string(),
        quantity: 12,
    }]));
    r.insert(unit("1:2", "Hammer", vec![]));
    assert_eq!(r.get("1:1").unwrap().name, "Seara");
    assert_eq!(r.get("1:1").unwrap().rounds[0].quantity, 12);
    r.insert(unit("1:1", "Seara II", vec![]));
    assert_eq!(r.get("1:1").unwrap().name, "Seara II");
    assert_eq!(r.units().len(), 2);
    let removed = r.remove("1:1").unwrap();
    assert_eq!(removed.name, "Seara II");
    assert!(r.get("1:1").is_none());
    assert!(r.remove("1:1").is_none());
    assert_eq!(r.units().len(), 1);
    assert_eq!(r.get("1:2").unwrap().name, "Hammer");
}

#[test]
fn round_from_arma_reads_a_triple() {
    let r = Round::from_arma("[\"he_177\",\"175mm HE\",12]".to_string()).ok().unwrap();
    assert_eq!(r.classname, "he_177");
    assert_eq!(r.display_name, "175mm HE");
    assert_eq!(r.quantity, 12);
    assert!(Round::from_arma("[\"he_177\",\"175mm HE\"]".to_string()).is_err());
    assert!(Round::from_arma("[\"a\",\"b\",300]".to_string()).is_err());
    assert!(Round::from_arma("\"he_177\",\"175mm HE\",12]".to_string()).is_err());
    assert!(Round::from_arma("[\"he_177\",\"175mm HE\",12".to_string()).is_err());
    assert!(Round::from_arma("[".to_string()).is_err());
}

#[test]
fn round_from_parsed_keeps_fields_and_errors() {
    let r = Round::from_parsed(Ok(("a".to_string(), "b".to_string(), 3))).ok().unwrap();
    assert_eq!((r.classname.as_str(), r.display_name.as_str(), r.quantity), ("a", "b", 3));
    let e = Round::from_parsed(Err(ArmaParseError { message: "bad".to_string(), error: arma_rs::FromArmaError::Custom("bad".to_string()) })).err().unwrap();
    assert_eq!(e.message, "bad");
}

#[test]
fn fire_order_compacts_the_target() {
    let r = fire_request(FireOrder {
        target: "148 - 204:5".to_string(),
        round: "he_177".to_string(),
        quantity: 2,
        unit: "1:1".to_string(),
        spread: None,
    });
    assert_eq!(r.target, "1482045");
    assert_eq!(r.spread, 0);
    assert_eq!(r.unit, "1:1");
    let r = fire_request(FireOrder {
        target: "1 4 8 2 0 4".to_string(),
        round: "x".to_string(),
        quantity: 1,
        unit: "u".to_string(),
        spread: Some(50),
    });
    assert_eq!(r.target, "148204");
    assert_eq!(r.spread, 50);
    assert_eq!(fire_reply(true), "{\"success\": true}");
    assert_eq!(fire_reply(false), "Error requesting artillery fire");
}

#[test]
fn eta_order_and_replies() {
    let r = eta_request(EtaOrder {
        target: "12-34".to_string(),
        round: "r".to_string(),
        unit: "2:1".to_string(),
    });
    assert_eq!(r.target, "1234");
    assert_eq!(r.unit, "2:1");
    assert_eq!(eta_reply(EtaOutcome::Eta("42.5".to_string())), "{\"eta\": 42.5}");
    assert_eq!(eta_reply(EtaOutcome::Invalid), "{\"error\": \"Invalid response\"}");
    assert_eq!(eta_reply(EtaOutcome::NoResponse), "{\"error\": \"No response received\"}");
    assert_eq!(eta_reply(EtaOutcome::NotDelivered), "Error requesting artillery fire");
}

#[test]
fn text_operations() {
    assert_eq!(replace_all("Copy. Over and out", "Over and out", "out"), "Copy. out");
    assert_eq!(replace_all("aaa", "aa", "b"), "ba");
    assert_eq!(replace_all("Over and Over and out", "Over and out", "out"), "Over and out");
    assert_eq!(replace_all("none", "xyz", "q"), "none");
    assert_eq!(replace_all("abc", "", "x"), "abc".replace("", "x"));
    assert_eq!(replace_all("abc", "", "x"), "xaxbxcx");
    assert_eq!(replace_all("", "", "x"), "x");
    assert_eq!(replace_all("", "a", "x"), "");
    assert_eq!(compact_grid("1-2:3 4"), "1234");
    assert_eq!(compact_grid(""), "");
    assert!(starts_with("no message", "no message"));
    assert!(!starts_with("no", "no message"));
    assert!(same_text("abc", "abc"));
    assert!(!same_text("abc", "abd"));
    assert!(!same_text("abc", "ab"));
}

#[test]
fn tool_schemas() {
    let f = tool_artillery_fire_schema();
    assert_eq!(f.name, "artillery_fire");
    assert_eq!(f.properties.len(), 5);
    assert_eq!(f.properties[2].name, "quantity");
    assert_eq!(f.properties[2].kind, ParamKind::Number);
    assert_eq!(f.required.as_ref().unwrap().len(), 4);
    let a = tool_artillery_available_schema();
    assert_eq!(a.name, "artillery_available");
    assert!(a.properties.is_empty());
    assert!(a.required.is_none());
    let e = tool_artillery_eta_schema();
    assert_eq!(e.name, "artillery_eta");
    assert_eq!(e.required.as_ref().unwrap(), &vec!["target".to_string(), "round".to_string(), "unit".to_string()]);
    let all = commander_tools();
    let names: Vec<&str> = all.iter().map(|t| t.name.as_str()).collect();
    assert_eq!(names, vec!["artillery_fire", "artillery_available", "artillery_eta"]);
    for t in &all {
        assert_ne!(tool_kind(&t.name), ToolKind::Unknown);
    }
}

#[test]
fn commander_requests_start_with_the_prompt() {
    let mut c = Commander::new("Hammer".to_string());
    assert_eq!(c.callsign(), "Hammer");
    c.push_user("Need fire".to_string());
    let msgs = c.request_messages();
    assert_eq!(msgs.len(), 2);
    assert_eq!(msgs[0].role, Role::System);
    assert!(msgs[0].content.starts_with("You are Hammer, a mobile artillery commander"));
    assert!(msgs[0].content.ends_with("always confirm details with the user."));
    assert_eq!(msgs[0].content, system_prompt("Hammer"));
    assert_eq!(msgs[1].role, Role::User);
    assert_eq!(msgs[1].content, "Need fire");
}

#[test]
fn commander_final_answers() {
    let mut c = Commander::new("Hammer".to_string());
    c.push_user("Fire".to_string());
    let step = c.receive(Completion {
        finish_reason: Some(FinishReason::Stop),
        content: Some("Rounds out. Over and out".to_string()),
        tool_calls: None,
    });
    assert!(matches!(step, Step::Reply(Some(ref a)) if a == "Rounds out. out"));
    assert_eq!(c.inner().history.len(), 2);
    assert_eq!(c.inner().history[1].role, Role::Assistant);
    assert_eq!(c.inner().history[1].content, "Rounds out. out");
    let step = c.receive(Completion { finish_reason: None, content: Some("No message".to_string()), tool_calls: None });
    assert!(matches!(step, Step::Reply(None)));
    assert_eq!(c.inner().history.len(), 3);
    let step = c.receive(Completion { finish_reason: Some(FinishReason::Length), content: None, tool_calls: None });
    assert!(matches!(step, Step::Reply(None)));
    assert_eq!(c.inner().history.len(), 3);
}

#[test]
fn commander_tool_calls() {
    let mut c = Commander::new("Hammer".to_string());
    let step = c.receive(Completion {
        finish_reason: Some(FinishReason::ToolCalls),
        content: None,
        tool_calls: Some(vec![
            ToolCall { name: "artillery_available".to_string(), arguments: "{}".to_string() },
            ToolCall { name: "launch".to_string(), arguments: "{}".to_string() },
        ]),
    });
    match step {
        Step::CallTools(calls) => {
            assert_eq!(calls.len(), 2);
            assert_eq!(calls[0].kind, ToolKind::Available);
            assert_eq!(calls[1].kind, ToolKind::Unknown);
            assert_eq!(calls[1].name, "launch");
        }
        Step::Reply(_) => panic!("expected tool calls"),
    }
    assert_eq!(c.inner().history.len(), 0);
    c.record_tool_result("launch".to_string(), unknown_tool_reply());
    assert_eq!(c.inner().history[0].role, Role::Function);
    assert_eq!(c.inner().history[0].name.as_deref(), Some("launch"));
    assert_eq!(c.inner().history[0].content, "unknown tool call");
}

#[test]
fn commander_artillery() {
    let mut c = Commander::new("Hammer".to_string());
    c.set_artillery("1:1".to_string(), "Seara".to_string(), vec![]);
    assert_eq!(c.inner().artillery.get("1:1").unwrap().name, "Seara");
    c.remove_artillery("1:1");
    assert!(c.inner().artillery.get("1:1").is_none());
    assert_eq!(tool_kind("artillery_fire"), ToolKind::Fire);
    assert_eq!(tool_kind("artillery_eta"), ToolKind::Eta);
}

#[test]
fn recording_stops_and_hands_back_its_file() {
    let mut current = CurrentRecording::default();
    assert!(current.get().is_none());
    let (tx, rx) = std::sync::mpsc::channel();
    current.set(CurrentRecordingInner { path: std::path::PathBuf::from("a.wav"), sender: tx });
    let inner = current.get().expect("recording");
    assert_eq!(inner.path, std::path::PathBuf::from("a.wav"));
    assert!(rx.try_recv().is_ok());
    assert!(current.get().is_none());
    let (tx, rx) = std::sync::mpsc::channel::<()>();
    drop(rx);
    current.set(CurrentRecordingInner { path: std::path::PathBuf::from("b.wav"), sender: tx });
    assert!(current.get().is_none());
    assert_eq!(current.stop().err(), Some("No recording in progress".to_string()));
    let (tx, _rx) = std::sync::mpsc::channel();
    current.set(CurrentRecordingInner { path: std::path::PathBuf::from("c.wav"), sender: tx });
    assert_eq!(current.stop().ok(), Some(std::path::PathBuf::from("c.wav")));
}

#[test]
fn wav_spec_values() {
    let w = wav_spec_from_config(2, 48000, 4, true);
    assert_eq!(w.channels, 2);
    assert_eq!(w.sample_rate, 48000);
    assert_eq!(w.bits_per_sample, 32);
    assert_eq!(w.sample_format, SampleFormat::Float);
    assert_eq!(wav_spec_from_config(1, 44100, 2, false).bits_per_sample, 16);
    assert_eq!(sample_format(false), SampleFormat::Int);
}

#[test]
fn pan_mono_plays_each_sample_twice() {
    let mut s = PanState::new();
    assert!(s.needs_input(1));
    assert_eq!(s.emit(1, Some(7)), Some((7, Side::Left)));
    assert!(!s.needs_input(1));
    assert_eq!(s.emit(1, None), Some((7, Side::Right)));
    assert!(s.needs_input(1));
    assert_eq!(s.emit(1, None), None);
    assert_eq!(s.emit(1, Some(-3)), Some((-3, Side::Left)));
}

#[test]
fn pan_stereo_alternates_sides() {
    let mut s = PanState::new();
    assert_eq!(s.emit(2, Some(1)), Some((1, Side::Left)));
    assert_eq!(s.emit(2, Some(2)), Some((2, Side::Right)));
    assert_eq!(s.emit(2, Some(3)), Some((3, Side::Left)));
    assert_eq!(s.emit(2, None), None);
    assert_eq!(s.emit(2, Some(4)), Some((4, Side::Right)));
}

#[test]
fn http_speak_endpoint() {
    assert_eq!(audio_file_name("abc"), "sai_abc.mp3");
    let r = speak_reply("abc", AudioFile::Missing);
    assert_eq!(r.status, 404);
    assert!(matches!(r.body, ReplyBody::Text(ref t) if t == "Audio file with ID abc not found"));
    let r = speak_reply("abc", AudioFile::Read(vec![1, 2, 3]));
    assert_eq!(r.status, 200);
    assert_eq!(r.content_type, "audio/mpeg");
    assert_eq!(r.disposition.as_deref(), Some("attachment; filename=\"abc.mp3\""));
    assert!(matches!(r.body, ReplyBody::Bytes(ref b) if b == &vec![1, 2, 3]));
    let r = speak_reply("abc", AudioFile::Unreadable);
    assert_eq!(r.status, 500);
    assert!(matches!(r.body, ReplyBody::Text(ref t) if t == "Error reading audio file"));
}

#[test]
fn http_spoke_endpoint() {
    assert_eq!(spoke_field_action(false, "audio"), FieldAction::NoContext);
    assert_eq!(spoke_field_action(true, "audio"), FieldAction::ReadAudio);
    assert_eq!(spoke_field_action(true, "file"), FieldAction::Skip);
    assert_eq!(spoke_reply(SpokeOutcome::NoAudio), (400, "No audio file received".to_string()));
    assert_eq!(spoke_reply(SpokeOutcome::Transcribed("hi".to_string())), (200, "hi".to_string()));
    assert_eq!(spoke_reply(SpokeOutcome::NoContext), (500, "Failed to get context".to_string()));
    assert_eq!(spoke_reply(SpokeOutcome::ClientError), (500, "Error creating client".to_string()));
    assert_eq!(spoke_reply(SpokeOutcome::TranscriptionError), (500, "Error processing audio file".to_string()));
}

#[test]
fn http_client_urls_and_speech_results() {
    assert_eq!(speak_url("http://h:8521", "id"), Some("http://h:8521/speak/id".to_string()));
    assert_eq!(speak_url("https://h", "id"), Some("https://h/speak/id".to_string()));
    assert_eq!(speak_url("ftp://h", "id"), None);
    assert_eq!(speak_url("h", "id"), None);
    assert_eq!(speech_result(SpeechOutcome::Announced), Ok(()));
    assert_eq!(speech_result(SpeechOutcome::CallbackFailed), Err("Error sending callback data".to_string()));
    assert_eq!(speech_result(SpeechOutcome::NotProduced), Err("Error processing audio file".to_string()));
}

#[test]
fn turn_follow_ups_and_failures() {
    assert!(matches!(follow_up(true, Some("Copy".to_string())), FollowUp::Speak(ref t) if t == "Copy"));
    assert!(matches!(follow_up(true, None), FollowUp::NothingToSpeak));
    assert!(matches!(follow_up(false, Some("x".to_string())), FollowUp::Show(Some(ref t)) if t == "x"));
    assert!(matches!(follow_up(false, None), FollowUp::Show(None)));
    assert_eq!(chat_failure_message(ChatFailure::Client), "Error creating client");
    assert_eq!(chat_failure_message(ChatFailure::Chat), "Error processing chat");
}

#[test]
fn transcript_segments_run_together() {
    assert_eq!(spoken_text(&vec![" Fire".to_string(), " mission".to_string()]), Some(" Fire mission".to_string()));
    assert_eq!(spoken_text(&vec![]), None);
    assert_eq!(spoken_text(&vec![String::new(), String::new()]), None);
}

#[test]
fn lowercase_silence_check() {
    let mut c = Commander::new("Anvil".to_string());
    let step = c.receive(Completion {
        finish_reason: Some(FinishReason::Stop),
        content: Some("NO MESSAGE.".to_string()),
        tool_calls: None,
    });
    assert!(matches!(step, Step::Reply(None)));
    let step = c.receive(Completion {
        finish_reason: Some(FinishReason::ContentFilter),
        content: Some("Message received".to_string()),
        tool_calls: None,
    });
    assert!(matches!(step, Step::Reply(Some(ref a)) if a == "Message received"));
}

#[test]
fn artillery_fire() {
    // Registering "1:1" ("Seara") with callsign "hammer" and the rounds
    // [["he_177","175mm HE",12]], as Arma sends them.
    let round = Round::from_arma("[\"he_177\",\"175mm HE\",12]".to_string()).ok().unwrap();
    let mut commander = Commander::new("hammer".to_string());
    commander.set_artillery("1:1".to_string(), "Seara".to_string(), vec![round]);
    let unit = commander.inner().artillery.get("1:1").unwrap();
    assert_eq!(unit.id, "1:1");
    assert_eq!(unit.name, "Seara");
    assert_eq!(unit.rounds.len(), 1);
    assert_eq!(unit.rounds[0].classname, "he_177");
    assert_eq!(unit.rounds[0].display_name, "175mm HE");
    assert_eq!(unit.rounds[0].quantity, 12);
    let first = fire_request(FireOrder {
        target: "1 4 8 2 0 4".to_string(),
        round: "he_177".to_string(),
        quantity: 2,
        unit: "1:1".to_string(),
        spread: None,
    });
    assert_eq!(first.target, "148204");
    assert_eq!(first.quantity, 2);
}
