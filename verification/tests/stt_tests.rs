use incant::stt::{
    download_plan, download_reply, file_url, model_source, moonshine_files, part_file_name, provider,
    resume_range, select_engine, transducer_files, DownloadPlan, DownloadableModel, EngineKind, PartWrite, SttError,
};

#[test]
fn engine_follows_model_files() {
    assert_eq!(select_engine(true, false, true, true), Ok(EngineKind::Moonshine));
    assert_eq!(select_engine(false, true, false, false), Ok(EngineKind::Moonshine));
    assert_eq!(select_engine(false, false, false, true), Ok(EngineKind::Transducer));
    assert_eq!(select_engine(false, false, false, false), Err(SttError::NoRecognizedModel));
}

#[test]
fn model_file_names() {
    let m = moonshine_files();
    assert_eq!(m.preprocessor, "preprocess.onnx");
    assert_eq!(m.encoder, "encode.int8.onnx");
    let t = transducer_files(true, false, true);
    assert_eq!((t.encoder, t.decoder, t.joiner, t.tokens), ("encoder.onnx", "decoder.int8.onnx", "joiner.onnx", "tokens.txt"));
}

#[test]
fn provider_needs_gpu_and_runtime() {
    assert_eq!(provider(true, true), "cuda");
    assert_eq!(provider(true, false), "cpu");
    assert_eq!(provider(false, true), "cpu");
}

#[test]
fn download_plans() {
    assert_eq!(download_plan(Some("parakeet-tdt-0.6b-v2-int8"), false, true), DownloadPlan::Fetch(DownloadableModel::Parakeet));
    assert_eq!(download_plan(Some("parakeet-tdt-0.6b-v2-int8"), true, false), DownloadPlan::AlreadyPresent(DownloadableModel::Parakeet));
    assert_eq!(download_plan(Some("moonshine-tiny-en-int8"), true, false), DownloadPlan::Fetch(DownloadableModel::Moonshine));
    assert_eq!(download_plan(None, false, true), DownloadPlan::AlreadyPresent(DownloadableModel::Moonshine));
}

#[test]
fn model_sources_and_urls() {
    let p = model_source(DownloadableModel::Parakeet);
    assert_eq!(p.dir, "models/parakeet-tdt-0.6b-v2-int8");
    assert_eq!(p.files, vec!["encoder.onnx", "decoder.onnx", "joiner.onnx", "tokens.txt"]);
    let m = model_source(DownloadableModel::Moonshine);
    assert_eq!(m.files.len(), 5);
    assert_eq!(
        file_url(m.base_url, m.files[0]),
        "https://huggingface.co/csukuangfj/sherpa-onnx-moonshine-tiny-en-int8/resolve/main/preprocess.onnx"
    );
    assert_eq!(part_file_name("tokens.txt"), "tokens.txt.__part__");
}

#[test]
fn resumed_downloads() {
    assert_eq!(resume_range(0), None);
    assert_eq!(resume_range(12345), Some("bytes=12345-".to_string()));
    assert_eq!(download_reply(206, 1234), Some((PartWrite::Append, 1234)));
    assert_eq!(download_reply(200, 1234), Some((PartWrite::Restart, 0)));
    assert_eq!(download_reply(200, 0), Some((PartWrite::Restart, 0)));
    assert_eq!(download_reply(404, 1234), None);
    assert_eq!(download_reply(301, 0), None);
}
