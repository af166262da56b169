//! Grove management core: the entities a grove keeps about its members and
//! the rules that decide who sees what, kept free of any web framework so
//! that every rule can be stated and proved.

pub mod api;
pub mod authentication;
pub mod calendar;
pub mod character_housing;
pub mod crafter;
pub mod custom_character_field;
pub mod custom_character_field_option;
pub mod custom_field;
pub mod date;
pub mod dbal;
pub mod error;
pub mod event;
pub mod grove;
pub mod middleware;
pub mod migration;
pub mod notifier;
pub mod routing;
pub mod support;
pub mod text;
pub mod user;

pub use character_housing::Model as CharacterHousing;
pub use character_housing::{HousingDistrict, HousingType};
pub use custom_character_field::CustomField;
pub use custom_character_field::Model as CustomCharacterField;
pub use custom_character_field_option::Model as CustomCharacterFieldOption;
pub use error::{BambooError, ErrorType};
pub use event::Model as Event;
pub use user::Model as User;
pub use user::{UpdateProfile, WebUser};
