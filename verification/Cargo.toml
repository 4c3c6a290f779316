[package]
name = "riscv_irq"
version = "0.1.0"
edition = "2021"
publish = false

[dependencies]
axplat = { version = "=0.3.0", features = ["irq"] }
kspin = "=0.1.1"
riscv = "=0.16.1"
riscv_plic = "=0.2.0"
sbi-rt = "=0.0.4"
log = "=0.4.34"
percpu = "*"
