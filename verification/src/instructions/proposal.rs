pub mod proposer;
