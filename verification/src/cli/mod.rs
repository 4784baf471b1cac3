pub mod command_tree;
pub mod schematic_kind;
