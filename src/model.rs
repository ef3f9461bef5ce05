//! The detection model's file and the script that downloads it.
use vstd::prelude::*;

verus! {

/// The model's file name inside the model directory.
pub const MODEL_FILE_NAME: &'static str = "yolov8n-face.onnx";

/// The download script's file name inside the model directory.
pub const SCRIPT_FILE_NAME: &'static str = "download_model.py";

/// The download script up to the model directory.
pub const DOWNLOAD_SCRIPT_HEAD: &'static str = r#"
import requests
import os
import sys

def download_file(url, local_path):
    with requests.get(url, stream=True) as r:
        r.raise_for_status()
        with open(local_path, 'wb') as f:
            for chunk in r.iter_content(chunk_size=8192):
                f.write(chunk)
    return local_path

# YOLOv8n face detection model (smaller and faster than YOLOv11 but efficient for face detection)
MODEL_URL = "https://github.com/akanametov/yolov8-face/releases/download/v0.0.0/yolov8n-face.onnx"
LOCAL_PATH = os.path.join('"#;

/// The download script after the model directory.
pub const DOWNLOAD_SCRIPT_TAIL: &'static str = r#"', 'yolov8n-face.onnx')

try:
    print(f"Downloading model from {MODEL_URL}...")
    download_file(MODEL_URL, LOCAL_PATH)
    print(f"Model downloaded successfully to {LOCAL_PATH}")
    sys.exit(0)
except Exception as e:
    print(f"Error downloading model: {e}")
    sys.exit(1)
"#;

/// The text of the script that downloads the model into `model_dir`.
pub fn download_script(model_dir: &str) -> (r: String)
    ensures
        r@ == DOWNLOAD_SCRIPT_HEAD@ + model_dir@ + DOWNLOAD_SCRIPT_TAIL@,
{
    let mut r = String::from_str(DOWNLOAD_SCRIPT_HEAD);
    r.append(model_dir);
    r.append(DOWNLOAD_SCRIPT_TAIL);
    r
}

} // verus!
