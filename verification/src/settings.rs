//! The application's settings and what it knows of the machine.

use vstd::prelude::*;
use vstd::string::StringExecFns;

verus! {

/// What was found of a neural processing unit.
#[derive(Debug, Clone)]
pub struct NpuInfo {
    /// Whether one can be used.
    pub available: bool,
    /// Its name, where one was found.
    pub device_name: Option<String>,
    /// The version of its driver, where that is known.
    pub driver_version: Option<String>,
}

impl NpuInfo {
    /// What is reported when the DirectML library was looked for: a device
    /// of that name if it was `found`, and no device if it was not.
    pub fn from_directml(found: bool) -> (info: NpuInfo)
        ensures
            info.available == found,
            found ==> (info.device_name matches Some(name) && name@ == "DirectML"@),
            !found ==> info.device_name is None,
            info.driver_version is None,
    {
        if found {
            NpuInfo {
                available: true,
                device_name: Some(String::from_str("DirectML")),
                driver_version: None,
            }
        } else {
            NpuInfo { available: false, device_name: None, driver_version: None }
        }
    }
}

/// The settings a user can change.
#[derive(Debug, Clone)]
pub struct Settings {
    /// Whether a neural processing unit is used where there is one.
    pub use_npu: bool,
    /// The size of the recognition model: small, medium or large.
    pub asr_model_size: String,
    /// Whether a language model is used.
    pub use_llm: bool,
    /// Whether meetings are stored without asking.
    pub auto_save: bool,
    /// Where meetings are stored, if not in the usual place.
    pub save_directory: Option<String>,
}

impl Default for Settings {
    /// Everything on, the small model, the usual place.
    fn default() -> (settings: Settings)
        ensures
            settings.use_npu,
            settings.asr_model_size@ == "small"@,
            settings.use_llm,
            settings.auto_save,
            settings.save_directory is None,
    {
        Settings {
            use_npu: true,
            asr_model_size: String::from_str("small"),
            use_llm: true,
            auto_save: true,
            save_directory: None,
        }
    }
}

/// One file that a recognition model may need, and whether it is there.
#[derive(Debug, Clone)]
pub struct ModelFile {
    /// Where the file should lie.
    pub path: String,
    /// Whether it was found there.
    pub found: bool,
}

/// Whether the files of the recognition model are in place.
#[derive(Debug, Clone)]
pub struct ModelCheck {
    /// Whether recognition can be set up with what was found.
    pub ok: bool,
    /// The directory in which the model was looked for.
    pub model_dir: String,
    /// The directory in which the tokenizer was looked for.
    pub tokenizer_dir: String,
    /// Every file that was looked for: the model in one file, the tokenizer,
    /// the encoder and the decoder.
    pub required: Vec<String>,
    /// The files that are missing and needed.
    pub missing: Vec<String>,
}

/// Whether what was found is enough: the tokenizer, and the model either in
/// one file or as an encoder with its decoder.
pub open spec fn models_complete(single: bool, tokenizer: bool, encoder: bool, decoder: bool) -> bool {
    tokenizer && (single || (encoder && decoder))
}

/// The files that are missing and needed: the tokenizer if it is missing,
/// and, where neither form of the model is complete, each missing file of
/// either form.
pub open spec fn missing_models(
    single: ModelFile,
    tokenizer: ModelFile,
    encoder: ModelFile,
    decoder: ModelFile,
) -> Seq<String> {
    let tokenizer_part = if tokenizer.found {
        Seq::<String>::empty()
    } else {
        seq![tokenizer.path]
    };
    let model_missing = !(single.found || (encoder.found && decoder.found));
    let single_part = if model_missing && !single.found {
        seq![single.path]
    } else {
        Seq::<String>::empty()
    };
    let encoder_part = if model_missing && !encoder.found {
        seq![encoder.path]
    } else {
        Seq::<String>::empty()
    };
    let decoder_part = if model_missing && !decoder.found {
        seq![decoder.path]
    } else {
        Seq::<String>::empty()
    };
    tokenizer_part + single_part + encoder_part + decoder_part
}

impl ModelCheck {
    /// Judges what a look for the model's files found.
    pub fn evaluate(
        model_dir: String,
        tokenizer_dir: String,
        single: ModelFile,
        tokenizer: ModelFile,
        encoder: ModelFile,
        decoder: ModelFile,
    ) -> (check: ModelCheck)
        ensures
            check.model_dir == model_dir,
            check.tokenizer_dir == tokenizer_dir,
            check.required@ == seq![single.path, tokenizer.path, encoder.path, decoder.path],
            check.missing@ == missing_models(single, tokenizer, encoder, decoder),
            check.ok == models_complete(single.found, tokenizer.found, encoder.found, decoder.found),
            check.ok <==> check.missing@.len() == 0,
    {
        let mut missing: Vec<String> = Vec::new();
        if !tokenizer.found {
            missing.push(tokenizer.path.clone());
        }
        if !(single.found || (encoder.found && decoder.found)) {
            if !single.found {
                missing.push(single.path.clone());
            }
            if !encoder.found {
                missing.push(encoder.path.clone());
            }
            if !decoder.found {
                missing.push(decoder.path.clone());
            }
        }
        assert(missing@ =~= missing_models(single, tokenizer, encoder, decoder));
        let mut required: Vec<String> = Vec::new();
        required.push(single.path);
        required.push(tokenizer.path);
        required.push(encoder.path);
        required.push(decoder.path);
        assert(required@ =~= seq![single.path, tokenizer.path, encoder.path, decoder.path]);
        let ok = missing.len() == 0;
        ModelCheck { ok, model_dir, tokenizer_dir, required, missing }
    }
}

/// What became of a download of the model's files.
#[derive(Debug, Clone)]
pub struct DownloadResult {
    /// Whether every file arrived.
    pub ok: bool,
    /// Where the files that arrived were put.
    pub downloaded: Vec<String>,
    /// What went wrong with each file that did not arrive.
    pub failed: Vec<String>,
}

/// Where the files that arrived were put, in the order of the attempts.
pub open spec fn arrived(outcomes: Seq<Result<String, String>>) -> Seq<String>
    decreases outcomes.len(),
{
    if outcomes.len() == 0 {
        Seq::empty()
    } else {
        match outcomes.last() {
            Ok(path) => arrived(outcomes.drop_last()).push(path),
            Err(_) => arrived(outcomes.drop_last()),
        }
    }
}

/// What went wrong with the files that did not arrive, in the order of the
/// attempts.
pub open spec fn not_arrived(outcomes: Seq<Result<String, String>>) -> Seq<String>
    decreases outcomes.len(),
{
    if outcomes.len() == 0 {
        Seq::empty()
    } else {
        match outcomes.last() {
            Ok(_) => not_arrived(outcomes.drop_last()),
            Err(why) => not_arrived(outcomes.drop_last()).push(why),
        }
    }
}

/// Every attempt is counted once: as arrived or as not arrived.
pub proof fn lemma_every_outcome_counted(outcomes: Seq<Result<String, String>>)
    ensures
        arrived(outcomes).len() + not_arrived(outcomes).len() == outcomes.len(),
        not_arrived(outcomes).len() == 0 <==> forall|i: int|
            0 <= i < outcomes.len() ==> (#[trigger] outcomes[i]) is Ok,
    decreases outcomes.len(),
{
    if outcomes.len() > 0 {
        lemma_every_outcome_counted(outcomes.drop_last());
        let rest = outcomes.drop_last();
        if not_arrived(outcomes).len() == 0 {
            assert forall|i: int| 0 <= i < outcomes.len() implies (#[trigger] outcomes[i]) is Ok by {
                if i < rest.len() {
                    assert(rest[i] == outcomes[i]);
                }
            }
        } else if outcomes.last() is Ok {
            let i = choose|i: int| 0 <= i < rest.len() && !((#[trigger] rest[i]) is Ok);
            assert(outcomes[i] == rest[i]);
        }
    }
}

/// Why a file did not arrive, as it is reported: what the file is, where it
/// was asked for, and what went wrong.
pub open spec fn failure_text(what: Seq<char>, url: Seq<char>, why: Seq<char>) -> Seq<char> {
    what + ": "@ + url + " -> "@ + why
}

impl DownloadResult {
    /// The result of a download from the outcome of each attempt: where the
    /// file was put, or what went wrong. Both lists keep the order of the
    /// attempts.
    pub fn from_outcomes(outcomes: Vec<Result<String, String>>) -> (result: DownloadResult)
        ensures
            result.downloaded@ == arrived(outcomes@),
            result.failed@ == not_arrived(outcomes@),
            result.downloaded@.len() + result.failed@.len() == outcomes@.len(),
            result.ok <==> result.failed@.len() == 0,
            result.ok <==> forall|i: int| 0 <= i < outcomes@.len() ==> (#[trigger] outcomes@[i]) is Ok,
    {
        let mut downloaded: Vec<String> = Vec::new();
        let mut failed: Vec<String> = Vec::new();
        let ghost all = outcomes@;
        for outcome in it: outcomes
            invariant
                it.seq() == all,
                downloaded@ == arrived(all.take(it.index() as int)),
                failed@ == not_arrived(all.take(it.index() as int)),
        {
            proof {
                let next = all.take(it.index() + 1);
                assert(next.drop_last() == all.take(it.index() as int));
                assert(next.last() == all[it.index() as int]);
            }
            match outcome {
                Ok(path) => downloaded.push(path),
                Err(why) => failed.push(why),
            }
        }
        proof {
            assert(all.take(all.len() as int) == all);
            lemma_every_outcome_counted(all);
        }
        let ok = failed.len() == 0;
        DownloadResult { ok, downloaded, failed }
    }

    /// Why a file did not arrive, as it is reported.
    pub fn failure(what: &str, url: &str, why: &str) -> (text: String)
        ensures
            text@ == failure_text(what@, url@, why@),
    {
        let mut text = String::from_str(what);
        text.append(": ");
        text.append(url);
        text.append(" -> ");
        text.append(why);
        text
    }

    /// The result of a download in which `downloaded` arrived and `failed`
    /// did not.
    pub fn new(downloaded: Vec<String>, failed: Vec<String>) -> (result: DownloadResult)
        ensures
            result.ok <==> failed@.len() == 0,
            result.downloaded == downloaded,
            result.failed == failed,
    {
        let ok = failed.len() == 0;
        DownloadResult { ok, downloaded, failed }
    }
}

} // verus!
