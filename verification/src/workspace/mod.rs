pub mod build_tool;
pub mod file_writer;
pub mod folder_conventions;
pub mod project_detector;
