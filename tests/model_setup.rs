use face_dataset_generator::error::ModelError;
use face_dataset_generator::model::{download_script, DOWNLOAD_SCRIPT_HEAD, DOWNLOAD_SCRIPT_TAIL};

#[test]
fn script_names_the_model_directory() {
    let script = download_script("/tmp/models");
    assert!(script.contains("LOCAL_PATH = os.path.join('/tmp/models', 'yolov8n-face.onnx')"));
    assert!(script.contains("print(f\"Downloading model from {MODEL_URL}...\")"));
    assert_eq!(script, format!("{}/tmp/models{}", DOWNLOAD_SCRIPT_HEAD, DOWNLOAD_SCRIPT_TAIL));
}

#[test]
fn error_messages_name_their_kind() {
    assert_eq!(ModelError::DownloadError("no network".to_string()).message(), "Download error: no network");
    assert_eq!(ModelError::InvalidPath("x.onnx".to_string()).message(), "Invalid model path: x.onnx");
    let io = std::io::Error::new(std::io::ErrorKind::NotFound, "missing");
    let e: ModelError = ModelError::from(io);
    assert_eq!(e.message(), "I/O error: missing");
}
