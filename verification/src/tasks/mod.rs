pub mod light_sensor_task;
