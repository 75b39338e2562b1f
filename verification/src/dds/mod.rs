pub mod ad985x;
pub mod dds_task;
