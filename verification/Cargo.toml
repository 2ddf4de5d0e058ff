[package]
name = "veil7"
version = "0.1.0"
edition = "2021"
publish = false

[dependencies]
sha3 = "=0.10.9"
sha2 = "=0.10.9"
hkdf = "=0.12.4"
subtle = "=2.6.1"
getrandom = "=0.2.17"
zeroize = "=1.9.1"
libc = "=0.2.191"
libcrux-ml-kem = "=0.0.11"
libcrux-ml-dsa = "=0.0.11"
slh-dsa = "=0.0.3"
