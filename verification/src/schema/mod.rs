pub mod itchformat;
