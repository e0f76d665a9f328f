//! A verified core for an SVG badge rendering service: request
//! normalization, font capability checks, layout resolution and render
//! context composition, with the glyph metrics dataset, the icon catalog
//! and the template engine consumed as external collaborators.

pub mod badges;
pub mod ext;
pub mod laws;
pub mod text;
