use duckgpt::cooldown::CommandKind;
use duckgpt::cooldown::CooldownState;
use duckgpt::dispatch::DeviceStats;
use duckgpt::dispatch::Event;
use duckgpt::dispatch::Phase;
use duckgpt::dispatch::begin_invocation;
use duckgpt::dispatch::generation_reply;
use duckgpt::dispatch::image_reply;
use duckgpt::dispatch::startup_credential;
use duckgpt::dispatch::stats_reply;
use duckgpt::dispatch::step;
use duckgpt::metrics::GenerationResult;
use duckgpt::models::Models;

#[test]
fn machine_follows_the_invocation_protocol() {
    assert_eq!(step(Phase::Received, Event::Acknowledged), Some(Phase::Deferred));
    assert_eq!(step(Phase::Received, Event::CooldownRejected), Some(Phase::Rejected));
    assert_eq!(step(Phase::Deferred, Event::AdapterSucceeded), Some(Phase::Succeeded));
    assert_eq!(step(Phase::Deferred, Event::AdapterFailed), Some(Phase::Failed));
    assert_eq!(step(Phase::Succeeded, Event::ReplySent), Some(Phase::Replied));
    assert_eq!(step(Phase::Failed, Event::ReplySent), Some(Phase::Replied));
}

#[test]
fn machine_refuses_stray_transitions() {
    // No reply before the adapter outcome is settled.
    assert_eq!(step(Phase::Received, Event::ReplySent), None);
    assert_eq!(step(Phase::Deferred, Event::ReplySent), None);
    // No second reply, and nothing after the terminal states.
    assert_eq!(step(Phase::Replied, Event::ReplySent), None);
    assert_eq!(step(Phase::Replied, Event::AdapterSucceeded), None);
    assert_eq!(step(Phase::Rejected, Event::Acknowledged), None);
    // No adapter call without admission.
    assert_eq!(step(Phase::Rejected, Event::AdapterSucceeded), None);
}

#[test]
fn rejected_invocation_skips_the_adapter() {
    let mut state = CooldownState::new();
    assert_eq!(begin_invocation(&mut state, 7, CommandKind::Llm, 50), Phase::Deferred);
    // Within the window: rejected before any adapter call.
    let p = begin_invocation(&mut state, 7, CommandKind::Llm, 55);
    assert_eq!(p, Phase::Rejected);
    assert_eq!(step(p, Event::AdapterSucceeded), None);
    // After the window: admitted again.
    assert_eq!(begin_invocation(&mut state, 7, CommandKind::Llm, 60), Phase::Deferred);
}

#[test]
fn generation_success_embed_carries_the_metrics() {
    let g = GenerationResult {
        response: String::from("hello there"),
        eval_count: 100,
        eval_duration_ns: 2_000_000_000,
        total_duration_ns: 1_500_000_000,
    };
    let r = generation_reply(&Models::Caveman, &Ok(g));
    assert!(r.attachment.is_none());
    assert_eq!(r.embed.color, 0x00ff00);
    assert_eq!(r.embed.title, "Generated by `caveman-mistral`");
    assert_eq!(r.embed.description, "hello there");
    assert_eq!(r.embed.footer, "Made by @DuckyBlender | Generated with Ollama");
    assert_eq!(r.embed.fields.len(), 2);
    assert_eq!(r.embed.fields[0].name, "Duration");
    assert_eq!(r.embed.fields[0].value, "`1.50s`");
    assert!(r.embed.fields[0].inline);
    assert_eq!(r.embed.fields[1].name, "Speed");
    assert_eq!(r.embed.fields[1].value, "`50.00 tokens/s`");
    assert!(r.embed.fields[1].inline);
}

#[test]
fn generation_with_zero_eval_duration_does_not_divide() {
    let g = GenerationResult {
        response: String::new(),
        eval_count: 100,
        eval_duration_ns: 0,
        total_duration_ns: 0,
    };
    let r = generation_reply(&Models::Mistral, &Ok(g));
    assert_eq!(r.embed.fields[1].value, "`N/A`");
}

#[test]
fn generation_failure_gives_a_red_error_embed() {
    let r = generation_reply(&Models::Mistral, &Err(String::from("connection refused")));
    assert!(r.attachment.is_none());
    assert_eq!(r.embed.color, 0xff0000);
    assert_eq!(r.embed.title, "Error generating response");
    assert_eq!(r.embed.description, "Error: connection refused");
    assert!(r.embed.fields.is_empty());
}

#[test]
fn image_success_attaches_the_first_image() {
    let images = vec![
        (String::from("out_00001.png"), vec![1u8, 2, 3]),
        (String::from("out_00002.png"), vec![4u8]),
    ];
    let r = image_reply(&String::from("a duck"), 1500, Ok(images));
    let attachment = r.attachment.expect("first image attached");
    assert_eq!(attachment.filename, "out_00001.png");
    assert_eq!(attachment.bytes, vec![1u8, 2, 3]);
    assert_eq!(r.embed.color, 0x00ff00);
    assert_eq!(r.embed.title, "SDXL-Turbo");
    assert_eq!(r.embed.footer, "Made by @DuckyBlender | Generated with SDXL-Turbo");
    assert_eq!(r.embed.fields[0].name, "Prompt");
    assert_eq!(r.embed.fields[0].value, "`a duck`");
    assert_eq!(r.embed.fields[1].name, "Duration");
    assert_eq!(r.embed.fields[1].value, "`1.50s`");
}

#[test]
fn empty_image_result_gives_an_error_embed_without_indexing() {
    let r = image_reply(&String::from("a duck"), 900, Ok(Vec::new()));
    assert!(r.attachment.is_none());
    assert_eq!(r.embed.color, 0xff0000);
    assert_eq!(r.embed.title, "Error generating image");
    assert_eq!(r.embed.description, "Error: the backend returned no images");
}

#[test]
fn image_backend_failure_gives_an_error_embed() {
    let r = image_reply(&String::from("a duck"), 0, Err(String::from("timeout")));
    assert_eq!(r.embed.color, 0xff0000);
    assert_eq!(r.embed.description, "Error: timeout");
}

#[test]
fn stats_success_reports_vram_in_megabytes() {
    let devices = vec![DeviceStats {
        name: String::from("NVIDIA GeForce RTX 3060"),
        vram_free: 10_500_000_000,
        vram_total: 12_000_000_000,
    }];
    let r = stats_reply(&Ok(devices));
    assert_eq!(r.embed.title, "Stats");
    assert_eq!(r.embed.color, 0x00ff00);
    assert_eq!(r.embed.fields.len(), 1);
    assert_eq!(r.embed.fields[0].name, "GPU");
    assert_eq!(
        r.embed.fields[0].value,
        "NVIDIA GeForce RTX 3060\nVRAM: 10500MB/12000MB"
    );
}

#[test]
fn stats_failure_is_caught_like_the_other_commands() {
    let r = stats_reply(&Err(String::from("unreachable")));
    assert_eq!(r.embed.color, 0xff0000);
    assert_eq!(r.embed.title, "Error getting stats");
    assert_eq!(r.embed.description, "Error: unreachable");
    let r = stats_reply(&Ok(Vec::new()));
    assert_eq!(r.embed.color, 0xff0000);
    assert_eq!(r.embed.description, "Error: the backend reported no devices");
}

#[test]
fn startup_fails_without_the_credential() {
    assert_eq!(startup_credential(None), Err(String::from("missing DISCORD_TOKEN")));
    assert_eq!(
        startup_credential(Some(String::from("some-token"))),
        Ok(String::from("some-token"))
    );
}
