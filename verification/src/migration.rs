//! The changes of the database schema, in the order they are applied. Each
//! is named by the moment it was written, so that the order of the names is
//! the order of the changes.

use crate::text::precedes;
use vstd::prelude::*;

verus! {

/// The names of all changes of the schema, oldest first.
pub open spec fn migration_names() -> Seq<Seq<char>> {
    seq![
        "m20220101_000001_create_schemas"@,
        "m20230724_121011_create_table_user"@,
        "m20230724_121111_create_table_character"@,
        "m20230724_165124_create_table_token"@,
        "m20230724_165521_create_table_crafter"@,
        "m20230724_165656_create_table_fighter"@,
        "m20230724_165759_create_table_event"@,
        "m20230826_221916_update_user_add_otp_column"@,
        "m20230829_194031_create_table_custom_character_field"@,
        "m20230829_194055_create_table_custom_character_field_option"@,
        "m20230829_194101_create_table_custom_character_field_value"@,
        "m20230917_003256_add_position_to_custom_field"@,
        "m20230923_090306_add_field_free_company"@,
        "m20231128_215928_rename_schema_panda_party"@,
    ]
}

/// Knows every change of the schema.
pub struct Migrator;

impl Migrator {
    /// The changes to apply to an empty database, in this order.
    pub fn migrations() -> (names: Vec<&'static str>)
        ensures
            names@.map_values(|name: &str| name@) == migration_names(),
    {
        let mut names: Vec<&'static str> = Vec::new();
        names.push("m20220101_000001_create_schemas");
        names.push("m20230724_121011_create_table_user");
        names.push("m20230724_121111_create_table_character");
        names.push("m20230724_165124_create_table_token");
        names.push("m20230724_165521_create_table_crafter");
        names.push("m20230724_165656_create_table_fighter");
        names.push("m20230724_165759_create_table_event");
        names.push("m20230826_221916_update_user_add_otp_column");
        names.push("m20230829_194031_create_table_custom_character_field");
        names.push("m20230829_194055_create_table_custom_character_field_option");
        names.push("m20230829_194101_create_table_custom_character_field_value");
        names.push("m20230917_003256_add_position_to_custom_field");
        names.push("m20230923_090306_add_field_free_company");
        names.push("m20231128_215928_rename_schema_panda_party");
        proof {
            assert(names@.map_values(|name: &str| name@) =~= migration_names());
        }
        names
    }
}

/// A change of the schema is applied after all that were written before
/// it: each name comes before the next.
pub proof fn lemma_migrations_in_order(i: int)
    requires
        0 <= i < migration_names().len() - 1,
    ensures
        precedes(migration_names()[i], migration_names()[i + 1]),
{
    reveal_strlit("m20220101_000001_create_schemas");
    reveal_strlit("m20230724_121011_create_table_user");
    reveal_strlit("m20230724_121111_create_table_character");
    reveal_strlit("m20230724_165124_create_table_token");
    reveal_strlit("m20230724_165521_create_table_crafter");
    reveal_strlit("m20230724_165656_create_table_fighter");
    reveal_strlit("m20230724_165759_create_table_event");
    reveal_strlit("m20230826_221916_update_user_add_otp_column");
    reveal_strlit("m20230829_194031_create_table_custom_character_field");
    reveal_strlit("m20230829_194055_create_table_custom_character_field_option");
    reveal_strlit("m20230829_194101_create_table_custom_character_field_value");
    reveal_strlit("m20230917_003256_add_position_to_custom_field");
    reveal_strlit("m20230923_090306_add_field_free_company");
    reveal_strlit("m20231128_215928_rename_schema_panda_party");
    reveal_with_fuel(precedes, 16);
}

} // verus!
