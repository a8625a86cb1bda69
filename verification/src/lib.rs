pub mod args;
pub mod buffer;
pub mod bytes;
pub mod code;
pub mod errors;
pub mod filename;
pub mod ls_node_type;
pub mod ls_path_type;
pub mod node;
pub mod opts;
pub mod path;
pub mod perms;
pub mod sanitize;
pub mod path_cmp;
pub mod path_list;
pub mod path_meta;
pub mod path_sort;
pub mod path_status;
pub mod path_timestamps;
pub mod path_type;
pub mod path_utils;
pub mod size;
pub mod string_path;
pub mod sys;
pub mod text;
pub mod timed;
pub mod walk;
