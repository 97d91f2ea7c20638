//! Authentication and role-authorization core of an inventory-management
//! backend: password hashing, token issuance and validation, a user
//! directory with credential flows, and the request gate that maps a bearer
//! token to a permitted role tier.

pub mod category_dtos;
pub mod config_bcrypt;
pub mod config_environment;
pub mod config_jwt;
pub mod errors;
pub mod generic_dtos;
pub mod generic_functions;
pub mod guard_user;
pub mod login_dtos;
pub mod product_dtos;
pub mod reason_dtos;
pub mod report_dtos;
pub mod return_reason_dtos;
pub mod role_dtos;
pub mod service_user;
pub mod user_directory;
pub mod user_dtos;
pub mod user_enums;
