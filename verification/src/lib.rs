//! Playback core for SpriteStudio SSA animations.
//!
//! An SSA document is a list of named motions; each motion is an ordered
//! list of frames, and each frame an ordered list of parts to draw.  This
//! crate holds the playback engine: the data model, the frame-advance state
//! machine (loop / play-once / pause / stop), and the per-part draw
//! decisions (texture slot, blend mode, flips).  File loading, JSON
//! decoding, texture upload and the floating-point transform math live in
//! the embedding application, which hands this crate plain values.

pub mod ssa;
