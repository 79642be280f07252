//! Translation of container-app blueprints into a local, compose-style
//! configuration: one record per runnable container, with its image or build
//! context, published ports, network attachments and dependency edges, plus an
//! injected sidecar record wherever the service mesh is enabled.

pub mod assemble;
pub mod blueprint;
pub mod image;
pub mod output;
pub mod ports;
pub mod reference;
pub mod text;
pub mod walk;
