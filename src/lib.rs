//! Boilerplate generator for SuiteScript files: validation of the requested
//! script category, API version, modules and file names, normalisation of
//! names to the spelling NetSuite expects, and assembly of the file text.

pub mod text;
pub mod tables;
pub mod normalize;
pub mod error;
pub mod validate;
pub mod assemble;
pub mod laws;

pub use assemble::{
    format_args, format_imports, generate_script, get_api_version, get_copyright, get_modules,
    get_script_type, render_script,
};
pub use error::ScriptError;
pub use normalize::{get_module_names, map_module_to_name, map_script_to_name};
pub use validate::{
    validate_api_version, validate_copyright_file, validate_file, validate_file_name,
    validate_module_list, validate_modules, validate_script_type,
};
