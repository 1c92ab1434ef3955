use vstd::prelude::*;
use crate::text::{contains, contains_spec, decimal, decimal_spec};

verus! {

/// The speech-to-text engines the daemon can load.
#[derive(Debug, Clone, Copy, PartialEq, Eq, Structural)]
pub enum EngineKind {
    /// Moonshine: preprocessor, encoder and two decoders.
    Moonshine,
    /// Transducer (Parakeet): encoder, decoder and joiner.
    Transducer,
}

/// Why no engine could be loaded.
#[derive(Debug, Clone, Copy, PartialEq, Eq, Structural)]
pub enum SttError {
    /// The model directory holds no recognized model files.
    NoRecognizedModel,
}

/// Picks the engine from the files found in the model directory: a
/// preprocessor (plain or int8) means Moonshine, otherwise an encoder (plain
/// or int8) means a transducer.
pub fn select_engine(has_preprocess: bool, has_preprocess_int8: bool, has_encoder: bool, has_encoder_int8: bool) -> (r: Result<EngineKind, SttError>)
    ensures
        r == if has_preprocess || has_preprocess_int8 {
            Ok::<EngineKind, SttError>(EngineKind::Moonshine)
        } else if has_encoder || has_encoder_int8 {
            Ok(EngineKind::Transducer)
        } else {
            Err(SttError::NoRecognizedModel)
        },
{
    if has_preprocess || has_preprocess_int8 {
        Ok(EngineKind::Moonshine)
    } else if has_encoder || has_encoder_int8 {
        Ok(EngineKind::Transducer)
    } else {
        Err(SttError::NoRecognizedModel)
    }
}

/// The file names a Moonshine model is loaded from.
pub struct MoonshineFiles {
    pub preprocessor: &'static str,
    pub encoder: &'static str,
    pub cached_decoder: &'static str,
    pub uncached_decoder: &'static str,
    pub tokens: &'static str,
}

pub fn moonshine_files() -> (f: MoonshineFiles)
    ensures
        f.preprocessor@ == "preprocess.onnx"@,
        f.encoder@ == "encode.int8.onnx"@,
        f.cached_decoder@ == "cached_decode.int8.onnx"@,
        f.uncached_decoder@ == "uncached_decode.int8.onnx"@,
        f.tokens@ == "tokens.txt"@,
{
    MoonshineFiles {
        preprocessor: "preprocess.onnx",
        encoder: "encode.int8.onnx",
        cached_decoder: "cached_decode.int8.onnx",
        uncached_decoder: "uncached_decode.int8.onnx",
        tokens: "tokens.txt",
    }
}

/// The file names a transducer model is loaded from.
pub struct TransducerFiles {
    pub encoder: &'static str,
    pub decoder: &'static str,
    pub joiner: &'static str,
    pub tokens: &'static str,
}

/// The full-precision file when it is present, else the int8 one.
pub open spec fn precision_pick(has_plain: bool, plain: Seq<char>, int8: Seq<char>) -> Seq<char> {
    if has_plain { plain } else { int8 }
}

/// The transducer files to load: each network in full precision when that
/// file is present, else its int8 variant.
pub fn transducer_files(has_encoder: bool, has_decoder: bool, has_joiner: bool) -> (f: TransducerFiles)
    ensures
        f.encoder@ == precision_pick(has_encoder, "encoder.onnx"@, "encoder.int8.onnx"@),
        f.decoder@ == precision_pick(has_decoder, "decoder.onnx"@, "decoder.int8.onnx"@),
        f.joiner@ == precision_pick(has_joiner, "joiner.onnx"@, "joiner.int8.onnx"@),
        f.tokens@ == "tokens.txt"@,
{
    TransducerFiles {
        encoder: if has_encoder { "encoder.onnx" } else { "encoder.int8.onnx" },
        decoder: if has_decoder { "decoder.onnx" } else { "decoder.int8.onnx" },
        joiner: if has_joiner { "joiner.onnx" } else { "joiner.int8.onnx" },
        tokens: "tokens.txt",
    }
}

/// The inference provider: CUDA when both an NVIDIA GPU and a CUDA runtime
/// are present, the CPU otherwise.
pub fn provider(has_nvidia: bool, has_cuda_runtime: bool) -> (p: &'static str)
    ensures
        p@ == if has_nvidia && has_cuda_runtime { "cuda"@ } else { "cpu"@ },
{
    if has_nvidia && has_cuda_runtime { "cuda" } else { "cpu" }
}

/// The models the daemon can download.
#[derive(Debug, Clone, Copy, PartialEq, Eq, Structural)]
pub enum DownloadableModel {
    Parakeet,
    Moonshine,
}

/// Where a downloadable model comes from and goes to.
pub struct ModelSource {
    /// Directory under the cache directory.
    pub dir: &'static str,
    /// Base URL the files are fetched from.
    pub base_url: &'static str,
    /// The files, in download order.
    pub files: Vec<&'static str>,
}

pub open spec fn strs_view(v: Seq<&'static str>) -> Seq<Seq<char>> {
    v.map_values(|s: &'static str| s@)
}

pub open spec fn model_dir_spec(m: DownloadableModel) -> Seq<char> {
    match m {
        DownloadableModel::Parakeet => "models/parakeet-tdt-0.6b-v2-int8"@,
        DownloadableModel::Moonshine => "models/moonshine-tiny-en-int8"@,
    }
}

pub open spec fn model_base_url_spec(m: DownloadableModel) -> Seq<char> {
    match m {
        DownloadableModel::Parakeet => "https://huggingface.co/csukuangfj/sherpa-onnx-nemo-parakeet-tdt-0.6b-v2/resolve/main"@,
        DownloadableModel::Moonshine => "https://huggingface.co/csukuangfj/sherpa-onnx-moonshine-tiny-en-int8/resolve/main"@,
    }
}

pub open spec fn model_files_spec(m: DownloadableModel) -> Seq<Seq<char>> {
    match m {
        DownloadableModel::Parakeet => seq!["encoder.onnx"@, "decoder.onnx"@, "joiner.onnx"@, "tokens.txt"@],
        DownloadableModel::Moonshine => seq![
            "preprocess.onnx"@,
            "encode.int8.onnx"@,
            "cached_decode.int8.onnx"@,
            "uncached_decode.int8.onnx"@,
            "tokens.txt"@,
        ],
    }
}

/// Where `m` is downloaded from and which files it consists of.
pub fn model_source(m: DownloadableModel) -> (s: ModelSource)
    ensures
        s.dir@ == model_dir_spec(m),
        s.base_url@ == model_base_url_spec(m),
        strs_view(s.files@) == model_files_spec(m),
{
    match m {
        DownloadableModel::Parakeet => {
            let mut files: Vec<&'static str> = Vec::new();
            files.push("encoder.onnx");
            files.push("decoder.onnx");
            files.push("joiner.onnx");
            files.push("tokens.txt");
            assert(strs_view(files@) =~= model_files_spec(m));
            ModelSource {
                dir: "models/parakeet-tdt-0.6b-v2-int8",
                base_url: "https://huggingface.co/csukuangfj/sherpa-onnx-nemo-parakeet-tdt-0.6b-v2/resolve/main",
                files,
            }
        },
        DownloadableModel::Moonshine => {
            let mut files: Vec<&'static str> = Vec::new();
            files.push("preprocess.onnx");
            files.push("encode.int8.onnx");
            files.push("cached_decode.int8.onnx");
            files.push("uncached_decode.int8.onnx");
            files.push("tokens.txt");
            assert(strs_view(files@) =~= model_files_spec(m));
            ModelSource {
                dir: "models/moonshine-tiny-en-int8",
                base_url: "https://huggingface.co/csukuangfj/sherpa-onnx-moonshine-tiny-en-int8/resolve/main",
                files,
            }
        },
    }
}

/// What `download-model` does.
#[derive(Debug, Clone, Copy, PartialEq, Eq, Structural)]
pub enum DownloadPlan {
    /// Fetch this model.
    Fetch(DownloadableModel),
    /// This model is already present; nothing to do.
    AlreadyPresent(DownloadableModel),
}

/// What `download-model` does, given the name of the configured model
/// directory and what is already in the cache: a directory named like a
/// Parakeet model gets Parakeet (unless its encoder is already there);
/// anything else gets Moonshine (unless its preprocessor is already there).
pub fn download_plan(model_dir_name: Option<&str>, parakeet_present: bool, moonshine_present: bool) -> (p: DownloadPlan)
    ensures
        p == if (model_dir_name matches Some(n) && contains_spec(n@, "parakeet"@)) {
            if parakeet_present {
                DownloadPlan::AlreadyPresent(DownloadableModel::Parakeet)
            } else {
                DownloadPlan::Fetch(DownloadableModel::Parakeet)
            }
        } else if moonshine_present {
            DownloadPlan::AlreadyPresent(DownloadableModel::Moonshine)
        } else {
            DownloadPlan::Fetch(DownloadableModel::Moonshine)
        },
{
    let wants_parakeet = match model_dir_name {
        Some(n) => contains(n, "parakeet"),
        None => false,
    };
    if wants_parakeet {
        if parakeet_present {
            DownloadPlan::AlreadyPresent(DownloadableModel::Parakeet)
        } else {
            DownloadPlan::Fetch(DownloadableModel::Parakeet)
        }
    } else if moonshine_present {
        DownloadPlan::AlreadyPresent(DownloadableModel::Moonshine)
    } else {
        DownloadPlan::Fetch(DownloadableModel::Moonshine)
    }
}

/// The URL of `file` under `base_url`.
pub fn file_url(base_url: &str, file: &str) -> (u: String)
    ensures
        u@ == base_url@ + "/"@ + file@,
{
    let mut u = String::from_str(base_url);
    u.append("/");
    u.append(file);
    u
}

/// The name of the partial file a download is written to before it is
/// renamed into place.
pub fn part_file_name(file_name: &str) -> (p: String)
    ensures
        p@ == file_name@ + ".__part__"@,
{
    let mut p = String::from_str(file_name);
    p.append(".__part__");
    p
}

/// The `Range` header that resumes a download after `existing` bytes, if any
/// bytes are already there.
pub fn resume_range(existing: u64) -> (h: Option<String>)
    ensures
        match h {
            Some(v) => existing > 0 && v@ == "bytes="@ + decimal_spec(existing as nat) + "-"@,
            None => existing == 0,
        },
{
    if existing > 0 {
        let mut v = String::from_str("bytes=");
        let d = decimal(existing);
        v.append(d.as_str());
        v.append("-");
        Some(v)
    } else {
        None
    }
}

/// How the partial file is written once the server has answered.
#[derive(Debug, Clone, Copy, PartialEq, Eq, Structural)]
pub enum PartWrite {
    /// The server resumed the download (`206 Partial Content`): append after
    /// the bytes already there.
    Append,
    /// The server sent the whole file (`200 OK` or another success): start
    /// the partial file afresh.
    Restart,
}

/// What to do with the server's answer to a download request when the
/// partial file holds `existing` bytes: how to write the partial file and how
/// many bytes it holds when writing starts. `None` when the answer is not a
/// success.
pub fn download_reply(code: u16, existing: u64) -> (r: Option<(PartWrite, u64)>)
    ensures
        r == if code == 206 {
            Some((PartWrite::Append, existing))
        } else if 200 <= code <= 299 {
            Some((PartWrite::Restart, 0u64))
        } else {
            None
        },
{
    if code == 206 {
        Some((PartWrite::Append, existing))
    } else if 200 <= code && code <= 299 {
        Some((PartWrite::Restart, 0))
    } else {
        None
    }
}

} // verus!
