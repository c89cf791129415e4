pub mod nya;
