[package]
name = "ex_netcdf"
version = "0.1.0"
edition = "2021"
publish = false

[dependencies]
netcdf = "0.8"
rustler = "0.29"
thiserror = "1"
