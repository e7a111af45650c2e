//! Materials, what each is made of in turn, and the tags that each has.

use vstd::prelude::*;
use crate::tag::Tag;

verus! {

#[derive(Clone, Copy, Debug, PartialEq, Eq, Structural)]
pub enum Material {
    Bronze,
    Fire,
    Glass,
    Iron,
    Metal,
    Steel,
    Stone,
    Wood,
}

/// What the catalogue says of a material.
pub struct MaterialData {
    pub parent: Option<Material>,
    pub tags: Vec<Tag>,
}

/// The wider material that a material belongs to, if any.
pub open spec fn material_parent(material: Material) -> Option<Material> {
    match material {
        Material::Bronze => Some(Material::Metal),
        Material::Iron => Some(Material::Metal),
        Material::Steel => Some(Material::Metal),
        _ => None,
    }
}

/// The tags of a material itself, without those of its parent.
pub open spec fn material_tags(material: Material) -> Seq<Tag> {
    match material {
        Material::Bronze => Seq::empty(),
        Material::Fire => seq![Tag::Burning, Tag::Gas, Tag::Transparent],
        Material::Glass => seq![Tag::Solid, Tag::Transparent],
        Material::Iron => Seq::empty(),
        Material::Metal => seq![Tag::Conductive, Tag::Solid],
        Material::Steel => Seq::empty(),
        Material::Stone => seq![Tag::Solid],
        Material::Wood => seq![Tag::Organic, Tag::Solid, Tag::Flammable],
    }
}

pub fn material_data(material: Material) -> (data: MaterialData)
    ensures
        data.parent == material_parent(material),
        data.tags@ == material_tags(material),
{
    match material {
        Material::Bronze => MaterialData { parent: Some(Material::Metal), tags: Vec::new() },
        Material::Fire => MaterialData {
            parent: None,
            tags: vec![Tag::Burning, Tag::Gas, Tag::Transparent],
        },
        Material::Glass => MaterialData { parent: None, tags: vec![Tag::Solid, Tag::Transparent] },
        Material::Iron => MaterialData { parent: Some(Material::Metal), tags: Vec::new() },
        Material::Metal => MaterialData { parent: None, tags: vec![Tag::Conductive, Tag::Solid] },
        Material::Steel => MaterialData { parent: Some(Material::Metal), tags: Vec::new() },
        Material::Stone => MaterialData { parent: None, tags: vec![Tag::Solid] },
        Material::Wood => MaterialData {
            parent: None,
            tags: vec![Tag::Organic, Tag::Solid, Tag::Flammable],
        },
    }
}

} // verus!
