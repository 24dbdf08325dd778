use vstd::prelude::*;

use crate::metrics::GenerationResult;
use crate::metrics::decimal_str;
use crate::metrics::duration_str;
use crate::metrics::format_centi;
use crate::metrics::spec_centi;
use crate::metrics::spec_decimal;
use crate::metrics::spec_duration;
use crate::metrics::spec_throughput_centi;
use crate::metrics::throughput_centi;
use crate::models::Models;

verus! {

/// Color of a successful reply embed.
pub const SUCCESS_COLOR: u32 = 0x00ff00;

/// Color of a failure reply embed.
pub const FAILURE_COLOR: u32 = 0xff0000;

/// One labeled field of an embed.
pub struct EmbedField {
    pub name: String,
    pub value: String,
    pub inline: bool,
}

/// A titled, colored, timestamped reply summary.
pub struct Embed {
    pub title: String,
    pub description: String,
    pub fields: Vec<EmbedField>,
    pub footer: String,
    pub color: u32,
    pub timestamp_millis: i64,
}

/// A named binary payload attached to a reply.
pub struct Attachment {
    pub filename: String,
    pub bytes: Vec<u8>,
}

/// A complete reply: an embed plus an optional attachment.
pub struct Reply {
    pub embed: Embed,
    pub attachment: Option<Attachment>,
}

/// Title of a successful generation embed.
pub open spec fn spec_generation_title(model: Models) -> Seq<char> {
    "Generated by `"@ + model.spec_id() + "`"@
}

/// Value of the duration field: the duration in backticks.
pub open spec fn spec_duration_value(total_duration_ns: u64) -> Seq<char> {
    seq!['`'] + spec_duration(total_duration_ns) + seq!['`']
}

/// Value of the speed field: tokens per second with two decimals, in
/// backticks; `` `N/A` `` when the evaluation duration is zero and the
/// throughput is undefined.
pub open spec fn spec_speed_value(eval_count: u64, eval_duration_ns: u64) -> Seq<char> {
    match spec_throughput_centi(eval_count, eval_duration_ns) {
        Some(c) => "`"@ + spec_centi(c as nat) + " tokens/s`"@,
        None => "`N/A`"@,
    }
}

/// The reply sent when a generation call succeeds: a green embed titled
/// after the model, carrying the generated text and the two metric fields,
/// with no attachment.
pub open spec fn is_generation_success_reply(
    r: Reply,
    model: Models,
    g: GenerationResult,
    timestamp_millis: i64,
) -> bool {
    &&& r.attachment is None
    &&& r.embed.color == SUCCESS_COLOR
    &&& r.embed.title@ == spec_generation_title(model)
    &&& r.embed.description == g.response
    &&& r.embed.footer@ == "Made by @DuckyBlender | Generated with Ollama"@
    &&& r.embed.timestamp_millis == timestamp_millis
    &&& r.embed.fields@.len() == 2
    &&& r.embed.fields@[0].name@ == "Duration"@
    &&& r.embed.fields@[0].value@ == spec_duration_value(g.total_duration_ns)
    &&& r.embed.fields@[0].inline
    &&& r.embed.fields@[1].name@ == "Speed"@
    &&& r.embed.fields@[1].value@ == spec_speed_value(g.eval_count, g.eval_duration_ns)
    &&& r.embed.fields@[1].inline
}

/// The reply sent when a call fails: a red embed with the given title,
/// the error message in the description, no fields and no attachment.
pub open spec fn is_error_reply(
    r: Reply,
    title: Seq<char>,
    message: Seq<char>,
    timestamp_millis: i64,
) -> bool {
    &&& r.attachment is None
    &&& r.embed.color == FAILURE_COLOR
    &&& r.embed.title@ == title
    &&& r.embed.description@ == "Error: "@ + message
    &&& r.embed.footer@ == Seq::<char>::empty()
    &&& r.embed.timestamp_millis == timestamp_millis
    &&& r.embed.fields@.len() == 0
}

/// The reply sent when an image call succeeds: a green embed echoing the
/// prompt and the elapsed time, with the first produced image attached
/// under its backend-provided filename.
pub open spec fn is_image_success_reply(
    r: Reply,
    prompt: Seq<char>,
    elapsed_ms: u64,
    image: (String, Vec<u8>),
    timestamp_millis: i64,
) -> bool {
    &&& r.attachment is Some
    &&& r.attachment->0.filename == image.0
    &&& r.attachment->0.bytes == image.1
    &&& r.embed.color == SUCCESS_COLOR
    &&& r.embed.title@ == "SDXL-Turbo"@
    &&& r.embed.description@ == Seq::<char>::empty()
    &&& r.embed.footer@ == "Made by @DuckyBlender | Generated with SDXL-Turbo"@
    &&& r.embed.timestamp_millis == timestamp_millis
    &&& r.embed.fields@.len() == 2
    &&& r.embed.fields@[0].name@ == "Prompt"@
    &&& r.embed.fields@[0].value@ == seq!['`'] + prompt + seq!['`']
    &&& r.embed.fields@[0].inline
    &&& r.embed.fields@[1].name@ == "Duration"@
    &&& r.embed.fields@[1].value@ == seq!['`'] + spec_centi(elapsed_ms as nat / 10) + seq![
        's',
        '`',
    ]
    &&& r.embed.fields@[1].inline
}

/// Value of the GPU field of a stats reply: the device name, then free
/// and total VRAM in whole megabytes.
pub open spec fn spec_gpu_value(name: Seq<char>, vram_free: u64, vram_total: u64) -> Seq<char> {
    name + "\nVRAM: "@ + spec_decimal(vram_free as nat / 1_000_000) + "MB/"@ + spec_decimal(
        vram_total as nat / 1_000_000,
    ) + "MB"@
}

/// The reply sent when a stats call succeeds: a green embed with one GPU
/// field and no attachment.
pub open spec fn is_stats_success_reply(
    r: Reply,
    name: Seq<char>,
    vram_free: u64,
    vram_total: u64,
    timestamp_millis: i64,
) -> bool {
    &&& r.attachment is None
    &&& r.embed.color == SUCCESS_COLOR
    &&& r.embed.title@ == "Stats"@
    &&& r.embed.description@ == Seq::<char>::empty()
    &&& r.embed.footer@ == Seq::<char>::empty()
    &&& r.embed.timestamp_millis == timestamp_millis
    &&& r.embed.fields@.len() == 1
    &&& r.embed.fields@[0].name@ == "GPU"@
    &&& r.embed.fields@[0].value@ == spec_gpu_value(name, vram_free, vram_total)
    &&& r.embed.fields@[0].inline
}

/// Builds the success embed for a generation result. Pure: everything in
/// the reply is determined by the arguments.
pub fn generation_success_reply(model: &Models, g: &GenerationResult, timestamp_millis: i64) -> (r:
    Reply)
    ensures
        is_generation_success_reply(r, *model, *g, timestamp_millis),
{
    let duration_value = String::from_str("`").concat(
        duration_str(g.total_duration_ns).as_str(),
    ).concat("`");
    proof {
        reveal_strlit("`");
        assert(duration_value@ =~= spec_duration_value(g.total_duration_ns));
    }
    let speed_value = match throughput_centi(g.eval_count, g.eval_duration_ns) {
        Some(c) => {
            let v = String::from_str("`").concat(format_centi(c).as_str()).concat(" tokens/s`");
            proof {
                assert(v@ =~= spec_speed_value(g.eval_count, g.eval_duration_ns));
            }
            v
        },
        None => String::from_str("`N/A`"),
    };
    let title = String::from_str("Generated by `").concat(model.model_id().as_str()).concat("`");
    proof {
        assert(title@ =~= spec_generation_title(*model));
    }
    let mut fields: Vec<EmbedField> = Vec::new();
    fields.push(EmbedField { name: String::from_str("Duration"), value: duration_value, inline: true });
    fields.push(EmbedField { name: String::from_str("Speed"), value: speed_value, inline: true });
    Reply {
        embed: Embed {
            title,
            description: g.response.clone(),
            fields,
            footer: String::from_str("Made by @DuckyBlender | Generated with Ollama"),
            color: SUCCESS_COLOR,
            timestamp_millis,
        },
        attachment: None,
    }
}

/// Builds a red error embed with the given title and message. Pure.
pub fn error_reply(title: &str, message: &str, timestamp_millis: i64) -> (r: Reply)
    ensures
        is_error_reply(r, title@, message@, timestamp_millis),
{
    let description = String::from_str("Error: ").concat(message);
    Reply {
        embed: Embed {
            title: String::from_str(title),
            description,
            fields: Vec::new(),
            footer: String::new(),
            color: FAILURE_COLOR,
            timestamp_millis,
        },
        attachment: None,
    }
}

/// Builds the success embed for an image result, attaching the image. Pure.
pub fn image_success_reply(
    prompt: &String,
    elapsed_ms: u64,
    image: (String, Vec<u8>),
    timestamp_millis: i64,
) -> (r: Reply)
    ensures
        is_image_success_reply(r, prompt@, elapsed_ms, image, timestamp_millis),
{
    let prompt_value = String::from_str("`").concat(prompt.as_str()).concat("`");
    let duration_value = String::from_str("`").concat(format_centi((elapsed_ms / 10) as u128).as_str()).concat("s`");
    proof {
        reveal_strlit("`");
        reveal_strlit("s`");
        assert(prompt_value@ =~= seq!['`'] + prompt@ + seq!['`']);
        assert(duration_value@ =~= seq!['`'] + spec_centi(elapsed_ms as nat / 10) + seq!['s', '`']);
    }
    let mut fields: Vec<EmbedField> = Vec::new();
    fields.push(EmbedField { name: String::from_str("Prompt"), value: prompt_value, inline: true });
    fields.push(EmbedField { name: String::from_str("Duration"), value: duration_value, inline: true });
    Reply {
        embed: Embed {
            title: String::from_str("SDXL-Turbo"),
            description: String::new(),
            fields,
            footer: String::from_str("Made by @DuckyBlender | Generated with SDXL-Turbo"),
            color: SUCCESS_COLOR,
            timestamp_millis,
        },
        attachment: Some(Attachment { filename: image.0, bytes: image.1 }),
    }
}

/// Builds the success embed for a system-stats snapshot. Pure.
pub fn stats_success_reply(
    name: &String,
    vram_free: u64,
    vram_total: u64,
    timestamp_millis: i64,
) -> (r: Reply)
    ensures
        is_stats_success_reply(r, name@, vram_free, vram_total, timestamp_millis),
{
    let gpu_value = name.clone().concat("\nVRAM: ").concat(
        decimal_str((vram_free / 1_000_000) as u128).as_str(),
    ).concat("MB/").concat(decimal_str((vram_total / 1_000_000) as u128).as_str()).concat("MB");
    proof {
        assert(gpu_value@ =~= spec_gpu_value(name@, vram_free, vram_total));
    }
    let mut fields: Vec<EmbedField> = Vec::new();
    fields.push(EmbedField { name: String::from_str("GPU"), value: gpu_value, inline: true });
    Reply {
        embed: Embed {
            title: String::from_str("Stats"),
            description: String::new(),
            fields,
            footer: String::new(),
            color: SUCCESS_COLOR,
            timestamp_millis,
        },
        attachment: None,
    }
}

/// The short notice sent when an invocation is rejected by the cooldown.
pub fn cooldown_notice() -> (r: String)
    ensures
        r@ == "You are on cooldown, try again later."@,
{
    String::from_str("You are on cooldown, try again later.")
}

} // verus!
