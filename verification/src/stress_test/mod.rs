pub mod stress_test_manager;
