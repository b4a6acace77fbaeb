//! The top-level fields of a mob that the General and Combat sections edit: their keys and the
//! values that the game assumes when a field is missing.

use vstd::prelude::*;

use crate::document::{TomlSpec, TomlValue};
use crate::fields::{apply_field_result, field_result_spec, opt_view, result_view, FieldResult};
use crate::session::{doc_view, vec2_spec, vec2_value, EditorSession, FLOAT_ZERO};

verus! {

/// IEEE-754 bit pattern of fifty (the default maximum linear speed).
pub const FLOAT_FIFTY: u64 = 0x4049000000000000;

/// IEEE-754 bit pattern of one hundred (the default linear acceleration).
pub const FLOAT_HUNDRED: u64 = 0x4059000000000000;

/// IEEE-754 bit pattern of one hundred and fifty (the default projectile speed).
pub const FLOAT_HUNDRED_FIFTY: u64 = 0x4062c00000000000;

/// A top-level field edited in the General or Combat section.
#[derive(PartialEq, Eq, Structural, Clone, Copy, Debug)]
pub enum PropertyField {
    Name,
    Spawnable,
    ZLevel,
    Health,
    CollisionDamage,
    MaxLinearSpeed,
    LinearAcceleration,
    ProjectileSpeed,
}

/// The key of a field.
pub open spec fn property_key_spec(f: PropertyField) -> Seq<char> {
    match f {
        PropertyField::Name => "name"@,
        PropertyField::Spawnable => "spawnable"@,
        PropertyField::ZLevel => "z_level"@,
        PropertyField::Health => "health"@,
        PropertyField::CollisionDamage => "collision_damage"@,
        PropertyField::MaxLinearSpeed => "max_linear_speed"@,
        PropertyField::LinearAcceleration => "linear_acceleration"@,
        PropertyField::ProjectileSpeed => "projectile_speed"@,
    }
}

/// The value that the game assumes when a field is missing; the name has none.
pub open spec fn property_default_spec(f: PropertyField) -> Option<TomlSpec> {
    match f {
        PropertyField::Name => None,
        PropertyField::Spawnable => Some(TomlSpec::Bool(true)),
        PropertyField::ZLevel => Some(TomlSpec::Float(FLOAT_ZERO)),
        PropertyField::Health => Some(TomlSpec::Int(100)),
        PropertyField::CollisionDamage => Some(TomlSpec::Int(0)),
        PropertyField::MaxLinearSpeed => Some(vec2_spec(FLOAT_FIFTY, FLOAT_FIFTY)),
        PropertyField::LinearAcceleration => Some(vec2_spec(FLOAT_HUNDRED, FLOAT_HUNDRED)),
        PropertyField::ProjectileSpeed => Some(TomlSpec::Float(FLOAT_HUNDRED_FIFTY)),
    }
}

/// The key of a field.
pub fn property_key(f: PropertyField) -> (k: &'static str)
    ensures
        k@ == property_key_spec(f),
{
    match f {
        PropertyField::Name => "name",
        PropertyField::Spawnable => "spawnable",
        PropertyField::ZLevel => "z_level",
        PropertyField::Health => "health",
        PropertyField::CollisionDamage => "collision_damage",
        PropertyField::MaxLinearSpeed => "max_linear_speed",
        PropertyField::LinearAcceleration => "linear_acceleration",
        PropertyField::ProjectileSpeed => "projectile_speed",
    }
}

/// The value that the game assumes when a field is missing; the name has none.
pub fn property_default(f: PropertyField) -> (d: Option<TomlValue>)
    ensures
        opt_view(d) == property_default_spec(f),
{
    match f {
        PropertyField::Name => None,
        PropertyField::Spawnable => Some(TomlValue::Boolean(true)),
        PropertyField::ZLevel => Some(TomlValue::Float(FLOAT_ZERO)),
        PropertyField::Health => Some(TomlValue::Integer(100)),
        PropertyField::CollisionDamage => Some(TomlValue::Integer(0)),
        PropertyField::MaxLinearSpeed => Some(vec2_value(FLOAT_FIFTY, FLOAT_FIFTY)),
        PropertyField::LinearAcceleration => Some(vec2_value(FLOAT_HUNDRED, FLOAT_HUNDRED)),
        PropertyField::ProjectileSpeed => Some(TomlValue::Float(FLOAT_HUNDRED_FIFTY)),
    }
}

/// Applies an editor's result to field `f` of the current mob: a change sets it (a field with a
/// default stays out of a document whose original lacks it while it holds the default), a
/// reset removes it. Returns whether anything was done.
pub fn apply_property_result(
    session: &mut EditorSession,
    f: PropertyField,
    result: FieldResult<TomlValue>,
) -> (modified: bool)
    ensures
        modified == !(result is NoChange),
        final(session).original_mob == old(session).original_mob,
        doc_view(final(session).current_mob) == field_result_spec(
            doc_view(old(session).current_mob),
            doc_view(old(session).original_mob),
            property_key_spec(f),
            result_view(result),
            property_default_spec(f),
        ),
{
    let key = property_key(f);
    let default = property_default(f);
    apply_field_result(session, key, result, default)
}

} // verus!
