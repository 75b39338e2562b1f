pub mod usb_task;
