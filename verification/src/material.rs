//! Materials: three texture handles per material, and the all-or-nothing
//! resolution of a material's texture sources.

use vstd::prelude::*;
use crate::gpu::TextureId;

verus! {

/// Exactly three textures: a diffuse (sRGB) map, a packed
/// occlusion-roughness-metallic map, and a tangent-space normal map.
#[derive(Debug)]
pub struct Material {
    pub diffuse_map: TextureId,
    pub occlusion_roughness_metal_map: TextureId,
    pub normal_map: TextureId,
}

impl Material {
    pub fn new(
        diffuse_map: TextureId,
        occlusion_roughness_metal_map: TextureId,
        normal_map: TextureId,
    ) -> (r: Material)
        ensures
            r.diffuse_map == diffuse_map,
            r.occlusion_roughness_metal_map == occlusion_roughness_metal_map,
            r.normal_map == normal_map,
    {
        Material { diffuse_map, occlusion_roughness_metal_map, normal_map }
    }

    pub fn diffuse_map(&self) -> (r: TextureId)
        ensures
            r == self.diffuse_map,
    {
        self.diffuse_map
    }

    pub fn orm_map(&self) -> (r: TextureId)
        ensures
            r == self.occlusion_roughness_metal_map,
    {
        self.occlusion_roughness_metal_map
    }

    pub fn normal_map(&self) -> (r: TextureId)
        ensures
            r == self.normal_map,
    {
        self.normal_map
    }
}

/// Where a document says one texture slot's image lives: a URI relative to
/// the asset directory, or some source the import does not support (such as
/// image bytes embedded in a buffer).
#[derive(Debug)]
pub enum ImageRef {
    Uri { uri: String },
    NonUri,
}

/// The three texture slots a document material may fill.
#[derive(Debug)]
pub struct MaterialSource {
    pub base_color: Option<ImageRef>,
    pub metallic_roughness: Option<ImageRef>,
    pub normal: Option<ImageRef>,
}

/// How a material resolves: three URIs to load, or the fixed placeholder
/// material. Partial materials are never constructed.
#[derive(Debug)]
pub enum MaterialResolution {
    Textures { diffuse_uri: String, orm_uri: String, normal_uri: String },
    Missing,
}

/// Whether every slot of the source names a URI image.
pub open spec fn all_slots_uri(source: MaterialSource) -> bool {
    &&& source.base_color matches Some(ImageRef::Uri { uri: _ })
    &&& source.metallic_roughness matches Some(ImageRef::Uri { uri: _ })
    &&& source.normal matches Some(ImageRef::Uri { uri: _ })
}

/// What resolving a material yields: three URIs exactly when every slot
/// names one (matched by view, since the URIs are copied out), the
/// placeholder otherwise.
pub open spec fn resolution_of(source: MaterialSource, r: MaterialResolution) -> bool {
    &&& (all_slots_uri(source) <==> r is Textures)
    &&& match r {
        MaterialResolution::Textures { diffuse_uri, orm_uri, normal_uri } => {
            &&& (source.base_color matches Some(ImageRef::Uri { uri }) && diffuse_uri@ == uri@)
            &&& (source.metallic_roughness matches Some(ImageRef::Uri { uri }) && orm_uri@
                == uri@)
            &&& (source.normal matches Some(ImageRef::Uri { uri }) && normal_uri@ == uri@)
        },
        MaterialResolution::Missing => !all_slots_uri(source),
    }
}

/// Resolves a material's texture sources. If any of the three slots is
/// absent or names a non-URI source, the whole material falls back to the
/// placeholder; otherwise the three URIs come back in slot order. Partial
/// materials are never constructed.
pub fn resolve_material(source: &MaterialSource) -> (r: MaterialResolution)
    ensures
        resolution_of(*source, r),
{
    let diffuse_uri = match &source.base_color {
        Some(ImageRef::Uri { uri }) => uri.clone(),
        _ => {
            return MaterialResolution::Missing;
        },
    };
    let orm_uri = match &source.metallic_roughness {
        Some(ImageRef::Uri { uri }) => uri.clone(),
        _ => {
            return MaterialResolution::Missing;
        },
    };
    let normal_uri = match &source.normal {
        Some(ImageRef::Uri { uri }) => uri.clone(),
        _ => {
            return MaterialResolution::Missing;
        },
    };
    MaterialResolution::Textures { diffuse_uri, orm_uri, normal_uri }
}

/// Finishes a resolved material from its three texture-load outcomes: the
/// loaded handles are kept only when every slot loaded; any failure
/// replaces the whole material with the placeholder material. Partial
/// materials are never constructed.
pub fn finish_material(
    diffuse: Option<TextureId>,
    orm: Option<TextureId>,
    normal: Option<TextureId>,
    placeholder: Material,
) -> (r: Material)
    ensures
        match (diffuse, orm, normal) {
            (Some(d), Some(o), Some(n)) => r.diffuse_map == d
                && r.occlusion_roughness_metal_map == o && r.normal_map == n,
            _ => r == placeholder,
        },
{
    match (diffuse, orm, normal) {
        (Some(d), Some(o), Some(n)) => Material {
            diffuse_map: d,
            occlusion_roughness_metal_map: o,
            normal_map: n,
        },
        _ => placeholder,
    }
}

} // verus!
