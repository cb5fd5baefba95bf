pub mod alpha;
pub mod codec;
pub mod discovery;
pub mod model;
pub mod pipeline;
pub mod planner;
pub mod progress;
pub mod replace;

pub use alpha::{check_all_opaque, preprocess, strip_alpha};
pub use codec::{decode_image, encode_image, resize_image};
pub use discovery::{classify_entries, has_png_extension, DirEntry};
pub use model::{Filter, Image};
pub use pipeline::{compress_images, PipelineError};
pub use planner::plan;
pub use progress::progress_hundredths;
pub use replace::{decide_replace, ReplaceDecision, TargetInfo};
