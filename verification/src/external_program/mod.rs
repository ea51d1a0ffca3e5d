pub mod lhm_helper;
pub mod program;
pub mod stress_test_manager;
