pub mod interact_executor;
