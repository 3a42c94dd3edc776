//! Verified core of a binding to the mapbox-gl-js mapping engine.
//!
//! The engine lives on the far side of a foreign boundary and is driven by
//! structured, JSON-compatible values. This crate holds what is decided on the
//! near side, with its contracts:
//!
//! - [`wire`]: the values that cross the boundary, and what it means to write
//!   a value to the wire and to read it back;
//! - [`event`] and [`listener`]: the typed events, the decoding of a payload
//!   by the kind of its event, and the listener that receives the events;
//! - [`handle`]: the registration of one listener, and the dispatch that
//!   reaches it only while its owner lives, its payload decodes and the
//!   listener is free;
//! - [`map`] and [`marker`]: the registries of listeners and markers, kept
//!   under identifiers of their own kinds ([`id`]), and the store that keeps
//!   callbacks alive ([`callback`]);
//! - [`options`], [`style`], [`layer`] and the smaller modules: what a map is
//!   configured with, and its wire forms.
//!
//! The engine itself is reached by the shell around this crate: every
//! function here takes and returns plain values.

pub mod callback;
pub mod error;
pub mod event;
pub mod feature;
pub mod geometry;
pub mod handle;
pub mod handler;
pub mod id;
pub mod image;
pub mod layer;
pub mod listener;
pub mod lnglat;
pub mod map;
pub mod marker;
pub mod options;
pub mod popup;
pub mod source;
pub mod style;
pub mod wire;

pub use error::{Error, Result};
pub use geometry::{IntoQueryGeometry, QueryGeometry};
pub use handle::{DispatchError, Handle, WeakOwner};
pub use handler::BoxZoomHandler;
pub use id::{CallbackId, MapListenerId, MarkerId};
pub use image::{Image, ImageOptions};
pub use layer::Layer;
pub use listener::{MapEventKind, MapEventListener};
pub use lnglat::{LngLat, LngLatBounds};
pub use map::MapboxMap;
pub use marker::{Marker, MarkerEventListener, MarkerOptions};
pub use options::{
    AnimationOptions, CameraAnimationOptions, CameraOptions, CustomAttribution, MapOptions,
    PaddingOptions, QueryFeatureOptions,
};
pub use popup::{Popup, PopupOptions};
pub use source::GeoJsonSource;
pub use style::{Source, Sources, Style, StyleOptions, StyleOrRef};
