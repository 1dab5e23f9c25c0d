//! The editing core of a screenshot annotation tool: the tool palette, the
//! annotation list with its undo and redo history, the topmost-hit rule, and the
//! clipping and caching of pixelated blur regions.

pub mod capture;
pub mod editor;
pub mod pixelate;
pub mod timeline;
pub mod tool;

pub use capture::{CaptureAction, CaptureFailure, CaptureResponse, PortalErrorKind, capture_action};
pub use editor::{EditorState, hit_test};
pub use pixelate::{KeyFields, PixelateCache, PixelateCacheKey, pixelate_key};
pub use timeline::{AnnotationId, Timeline};
pub use tool::Tool;
