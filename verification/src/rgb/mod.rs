pub mod rgb_task;
