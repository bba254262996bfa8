//! The fixed texts the bootloader writes on the diagnostics console, as
//! byte strings with their spec-level values.

use vstd::prelude::*;

verus! {

/// `"UART0 ACTIVE"`
pub open spec fn s_uart0_active() -> Seq<u8> {
    seq![0x55u8, 0x41, 0x52, 0x54, 0x30, 0x20, 0x41, 0x43, 0x54, 0x49, 0x56, 0x45]
}

/// `"UART0 ACTIVE"`
pub fn uart0_active() -> (r: Vec<u8>)
    ensures
        r@ == s_uart0_active(),
{
    let mut v: Vec<u8> = Vec::new();
    v.push(0x55);
    v.push(0x41);
    v.push(0x52);
    v.push(0x54);
    v.push(0x30);
    v.push(0x20);
    v.push(0x41);
    v.push(0x43);
    v.push(0x54);
    v.push(0x49);
    v.push(0x56);
    v.push(0x45);
    proof {
        assert(v@ =~= s_uart0_active());
    }
    v
}

/// `"DRAM test passed!"`
pub open spec fn s_dram_test_passed() -> Seq<u8> {
    seq![0x44u8, 0x52, 0x41, 0x4D, 0x20, 0x74, 0x65, 0x73, 0x74, 0x20, 0x70, 0x61, 0x73, 0x73, 0x65, 0x64, 0x21]
}

/// `"DRAM test passed!"`
pub fn dram_test_passed() -> (r: Vec<u8>)
    ensures
        r@ == s_dram_test_passed(),
{
    let mut v: Vec<u8> = Vec::new();
    v.push(0x44);
    v.push(0x52);
    v.push(0x41);
    v.push(0x4D);
    v.push(0x20);
    v.push(0x74);
    v.push(0x65);
    v.push(0x73);
    v.push(0x74);
    v.push(0x20);
    v.push(0x70);
    v.push(0x61);
    v.push(0x73);
    v.push(0x73);
    v.push(0x65);
    v.push(0x64);
    v.push(0x21);
    proof {
        assert(v@ =~= s_dram_test_passed());
    }
    v
}

/// `"Testing DRAM from 0x"`
pub open spec fn s_testing_dram_from() -> Seq<u8> {
    seq![0x54u8, 0x65, 0x73, 0x74, 0x69, 0x6E, 0x67, 0x20, 0x44, 0x52, 0x41, 0x4D, 0x20, 0x66, 0x72, 0x6F, 0x6D, 0x20, 0x30, 0x78]
}

/// `"Testing DRAM from 0x"`
pub fn testing_dram_from() -> (r: Vec<u8>)
    ensures
        r@ == s_testing_dram_from(),
{
    let mut v: Vec<u8> = Vec::new();
    v.push(0x54);
    v.push(0x65);
    v.push(0x73);
    v.push(0x74);
    v.push(0x69);
    v.push(0x6E);
    v.push(0x67);
    v.push(0x20);
    v.push(0x44);
    v.push(0x52);
    v.push(0x41);
    v.push(0x4D);
    v.push(0x20);
    v.push(0x66);
    v.push(0x72);
    v.push(0x6F);
    v.push(0x6D);
    v.push(0x20);
    v.push(0x30);
    v.push(0x78);
    proof {
        assert(v@ =~= s_testing_dram_from());
    }
    v
}

/// `" to 0x"`
pub open spec fn s_to_hex() -> Seq<u8> {
    seq![0x20u8, 0x74, 0x6F, 0x20, 0x30, 0x78]
}

/// `" to 0x"`
pub fn to_hex() -> (r: Vec<u8>)
    ensures
        r@ == s_to_hex(),
{
    let mut v: Vec<u8> = Vec::new();
    v.push(0x20);
    v.push(0x74);
    v.push(0x6F);
    v.push(0x20);
    v.push(0x30);
    v.push(0x78);
    proof {
        assert(v@ =~= s_to_hex());
    }
    v
}

/// `" bytes)"`
pub open spec fn s_bytes_suffix() -> Seq<u8> {
    seq![0x20u8, 0x62, 0x79, 0x74, 0x65, 0x73, 0x29]
}

/// `" bytes)"`
pub fn bytes_suffix() -> (r: Vec<u8>)
    ensures
        r@ == s_bytes_suffix(),
{
    let mut v: Vec<u8> = Vec::new();
    v.push(0x20);
    v.push(0x62);
    v.push(0x79);
    v.push(0x74);
    v.push(0x65);
    v.push(0x73);
    v.push(0x29);
    proof {
        assert(v@ =~= s_bytes_suffix());
    }
    v
}

/// `" ("`
pub open spec fn s_open_paren() -> Seq<u8> {
    seq![0x20u8, 0x28]
}

/// `" ("`
pub fn open_paren() -> (r: Vec<u8>)
    ensures
        r@ == s_open_paren(),
{
    let mut v: Vec<u8> = Vec::new();
    v.push(0x20);
    v.push(0x28);
    proof {
        assert(v@ =~= s_open_paren());
    }
    v
}

/// `"ERROR at address 0x"`
pub open spec fn s_error_at_address() -> Seq<u8> {
    seq![0x45u8, 0x52, 0x52, 0x4F, 0x52, 0x20, 0x61, 0x74, 0x20, 0x61, 0x64, 0x64, 0x72, 0x65, 0x73, 0x73, 0x20, 0x30, 0x78]
}

/// `"ERROR at address 0x"`
pub fn error_at_address() -> (r: Vec<u8>)
    ensures
        r@ == s_error_at_address(),
{
    let mut v: Vec<u8> = Vec::new();
    v.push(0x45);
    v.push(0x52);
    v.push(0x52);
    v.push(0x4F);
    v.push(0x52);
    v.push(0x20);
    v.push(0x61);
    v.push(0x74);
    v.push(0x20);
    v.push(0x61);
    v.push(0x64);
    v.push(0x64);
    v.push(0x72);
    v.push(0x65);
    v.push(0x73);
    v.push(0x73);
    v.push(0x20);
    v.push(0x30);
    v.push(0x78);
    proof {
        assert(v@ =~= s_error_at_address());
    }
    v
}

/// `": Expected 0x"`
pub open spec fn s_expected_hex() -> Seq<u8> {
    seq![0x3Au8, 0x20, 0x45, 0x78, 0x70, 0x65, 0x63, 0x74, 0x65, 0x64, 0x20, 0x30, 0x78]
}

/// `": Expected 0x"`
pub fn expected_hex() -> (r: Vec<u8>)
    ensures
        r@ == s_expected_hex(),
{
    let mut v: Vec<u8> = Vec::new();
    v.push(0x3A);
    v.push(0x20);
    v.push(0x45);
    v.push(0x78);
    v.push(0x70);
    v.push(0x65);
    v.push(0x63);
    v.push(0x74);
    v.push(0x65);
    v.push(0x64);
    v.push(0x20);
    v.push(0x30);
    v.push(0x78);
    proof {
        assert(v@ =~= s_expected_hex());
    }
    v
}

/// `", got 0x"`
pub open spec fn s_got_hex() -> Seq<u8> {
    seq![0x2Cu8, 0x20, 0x67, 0x6F, 0x74, 0x20, 0x30, 0x78]
}

/// `", got 0x"`
pub fn got_hex() -> (r: Vec<u8>)
    ensures
        r@ == s_got_hex(),
{
    let mut v: Vec<u8> = Vec::new();
    v.push(0x2C);
    v.push(0x20);
    v.push(0x67);
    v.push(0x6F);
    v.push(0x74);
    v.push(0x20);
    v.push(0x30);
    v.push(0x78);
    proof {
        assert(v@ =~= s_got_hex());
    }
    v
}

/// `"Pattern 0x"`
pub open spec fn s_pattern_hex() -> Seq<u8> {
    seq![0x50u8, 0x61, 0x74, 0x74, 0x65, 0x72, 0x6E, 0x20, 0x30, 0x78]
}

/// `"Pattern 0x"`
pub fn pattern_hex() -> (r: Vec<u8>)
    ensures
        r@ == s_pattern_hex(),
{
    let mut v: Vec<u8> = Vec::new();
    v.push(0x50);
    v.push(0x61);
    v.push(0x74);
    v.push(0x74);
    v.push(0x65);
    v.push(0x72);
    v.push(0x6E);
    v.push(0x20);
    v.push(0x30);
    v.push(0x78);
    proof {
        assert(v@ =~= s_pattern_hex());
    }
    v
}

/// `" failed with "`
pub open spec fn s_failed_with() -> Seq<u8> {
    seq![0x20u8, 0x66, 0x61, 0x69, 0x6C, 0x65, 0x64, 0x20, 0x77, 0x69, 0x74, 0x68, 0x20]
}

/// `" failed with "`
pub fn failed_with() -> (r: Vec<u8>)
    ensures
        r@ == s_failed_with(),
{
    let mut v: Vec<u8> = Vec::new();
    v.push(0x20);
    v.push(0x66);
    v.push(0x61);
    v.push(0x69);
    v.push(0x6C);
    v.push(0x65);
    v.push(0x64);
    v.push(0x20);
    v.push(0x77);
    v.push(0x69);
    v.push(0x74);
    v.push(0x68);
    v.push(0x20);
    proof {
        assert(v@ =~= s_failed_with());
    }
    v
}

/// `" errors"`
pub open spec fn s_errors_suffix() -> Seq<u8> {
    seq![0x20u8, 0x65, 0x72, 0x72, 0x6F, 0x72, 0x73]
}

/// `" errors"`
pub fn errors_suffix() -> (r: Vec<u8>)
    ensures
        r@ == s_errors_suffix(),
{
    let mut v: Vec<u8> = Vec::new();
    v.push(0x20);
    v.push(0x65);
    v.push(0x72);
    v.push(0x72);
    v.push(0x6F);
    v.push(0x72);
    v.push(0x73);
    proof {
        assert(v@ =~= s_errors_suffix());
    }
    v
}

/// `"Walking ones: ERROR at bit "`
pub open spec fn s_walking_ones_error_at_bit() -> Seq<u8> {
    seq![0x57u8, 0x61, 0x6C, 0x6B, 0x69, 0x6E, 0x67, 0x20, 0x6F, 0x6E, 0x65, 0x73, 0x3A, 0x20, 0x45, 0x52, 0x52, 0x4F, 0x52, 0x20, 0x61, 0x74, 0x20, 0x62, 0x69, 0x74, 0x20]
}

/// `"Walking ones: ERROR at bit "`
pub fn walking_ones_error_at_bit() -> (r: Vec<u8>)
    ensures
        r@ == s_walking_ones_error_at_bit(),
{
    let mut v: Vec<u8> = Vec::new();
    v.push(0x57);
    v.push(0x61);
    v.push(0x6C);
    v.push(0x6B);
    v.push(0x69);
    v.push(0x6E);
    v.push(0x67);
    v.push(0x20);
    v.push(0x6F);
    v.push(0x6E);
    v.push(0x65);
    v.push(0x73);
    v.push(0x3A);
    v.push(0x20);
    v.push(0x45);
    v.push(0x52);
    v.push(0x52);
    v.push(0x4F);
    v.push(0x52);
    v.push(0x20);
    v.push(0x61);
    v.push(0x74);
    v.push(0x20);
    v.push(0x62);
    v.push(0x69);
    v.push(0x74);
    v.push(0x20);
    proof {
        assert(v@ =~= s_walking_ones_error_at_bit());
    }
    v
}

/// `"Walking ones test failed with "`
pub open spec fn s_walking_ones_failed_with() -> Seq<u8> {
    seq![0x57u8, 0x61, 0x6C, 0x6B, 0x69, 0x6E, 0x67, 0x20, 0x6F, 0x6E, 0x65, 0x73, 0x20, 0x74, 0x65, 0x73, 0x74, 0x20, 0x66, 0x61, 0x69, 0x6C, 0x65, 0x64, 0x20, 0x77, 0x69, 0x74, 0x68, 0x20]
}

/// `"Walking ones test failed with "`
pub fn walking_ones_failed_with() -> (r: Vec<u8>)
    ensures
        r@ == s_walking_ones_failed_with(),
{
    let mut v: Vec<u8> = Vec::new();
    v.push(0x57);
    v.push(0x61);
    v.push(0x6C);
    v.push(0x6B);
    v.push(0x69);
    v.push(0x6E);
    v.push(0x67);
    v.push(0x20);
    v.push(0x6F);
    v.push(0x6E);
    v.push(0x65);
    v.push(0x73);
    v.push(0x20);
    v.push(0x74);
    v.push(0x65);
    v.push(0x73);
    v.push(0x74);
    v.push(0x20);
    v.push(0x66);
    v.push(0x61);
    v.push(0x69);
    v.push(0x6C);
    v.push(0x65);
    v.push(0x64);
    v.push(0x20);
    v.push(0x77);
    v.push(0x69);
    v.push(0x74);
    v.push(0x68);
    v.push(0x20);
    proof {
        assert(v@ =~= s_walking_ones_failed_with());
    }
    v
}

/// `"Finished initializing hardware, enabling MMU"`
pub open spec fn s_finished_enabling_mmu() -> Seq<u8> {
    seq![0x46u8, 0x69, 0x6E, 0x69, 0x73, 0x68, 0x65, 0x64, 0x20, 0x69, 0x6E, 0x69, 0x74, 0x69, 0x61, 0x6C, 0x69, 0x7A, 0x69, 0x6E, 0x67, 0x20, 0x68, 0x61, 0x72, 0x64, 0x77, 0x61, 0x72, 0x65, 0x2C, 0x20, 0x65, 0x6E, 0x61, 0x62, 0x6C, 0x69, 0x6E, 0x67, 0x20, 0x4D, 0x4D, 0x55]
}

/// `"Finished initializing hardware, enabling MMU"`
pub fn finished_enabling_mmu() -> (r: Vec<u8>)
    ensures
        r@ == s_finished_enabling_mmu(),
{
    let mut v: Vec<u8> = Vec::new();
    v.push(0x46);
    v.push(0x69);
    v.push(0x6E);
    v.push(0x69);
    v.push(0x73);
    v.push(0x68);
    v.push(0x65);
    v.push(0x64);
    v.push(0x20);
    v.push(0x69);
    v.push(0x6E);
    v.push(0x69);
    v.push(0x74);
    v.push(0x69);
    v.push(0x61);
    v.push(0x6C);
    v.push(0x69);
    v.push(0x7A);
    v.push(0x69);
    v.push(0x6E);
    v.push(0x67);
    v.push(0x20);
    v.push(0x68);
    v.push(0x61);
    v.push(0x72);
    v.push(0x64);
    v.push(0x77);
    v.push(0x61);
    v.push(0x72);
    v.push(0x65);
    v.push(0x2C);
    v.push(0x20);
    v.push(0x65);
    v.push(0x6E);
    v.push(0x61);
    v.push(0x62);
    v.push(0x6C);
    v.push(0x69);
    v.push(0x6E);
    v.push(0x67);
    v.push(0x20);
    v.push(0x4D);
    v.push(0x4D);
    v.push(0x55);
    proof {
        assert(v@ =~= s_finished_enabling_mmu());
    }
    v
}

/// `"Initialization Complete!"`
pub open spec fn s_initialization_complete() -> Seq<u8> {
    seq![0x49u8, 0x6E, 0x69, 0x74, 0x69, 0x61, 0x6C, 0x69, 0x7A, 0x61, 0x74, 0x69, 0x6F, 0x6E, 0x20, 0x43, 0x6F, 0x6D, 0x70, 0x6C, 0x65, 0x74, 0x65, 0x21]
}

/// `"Initialization Complete!"`
pub fn initialization_complete() -> (r: Vec<u8>)
    ensures
        r@ == s_initialization_complete(),
{
    let mut v: Vec<u8> = Vec::new();
    v.push(0x49);
    v.push(0x6E);
    v.push(0x69);
    v.push(0x74);
    v.push(0x69);
    v.push(0x61);
    v.push(0x6C);
    v.push(0x69);
    v.push(0x7A);
    v.push(0x61);
    v.push(0x74);
    v.push(0x69);
    v.push(0x6F);
    v.push(0x6E);
    v.push(0x20);
    v.push(0x43);
    v.push(0x6F);
    v.push(0x6D);
    v.push(0x70);
    v.push(0x6C);
    v.push(0x65);
    v.push(0x74);
    v.push(0x65);
    v.push(0x21);
    proof {
        assert(v@ =~= s_initialization_complete());
    }
    v
}

/// `"loaded at 0x"`
pub open spec fn s_loaded_at() -> Seq<u8> {
    seq![0x6Cu8, 0x6F, 0x61, 0x64, 0x65, 0x64, 0x20, 0x61, 0x74, 0x20, 0x30, 0x78]
}

/// `"loaded at 0x"`
pub fn loaded_at() -> (r: Vec<u8>)
    ensures
        r@ == s_loaded_at(),
{
    let mut v: Vec<u8> = Vec::new();
    v.push(0x6C);
    v.push(0x6F);
    v.push(0x61);
    v.push(0x64);
    v.push(0x65);
    v.push(0x64);
    v.push(0x20);
    v.push(0x61);
    v.push(0x74);
    v.push(0x20);
    v.push(0x30);
    v.push(0x78);
    proof {
        assert(v@ =~= s_loaded_at());
    }
    v
}

/// `"Initialized MMC controller"`
pub open spec fn s_initialized_mmc() -> Seq<u8> {
    seq![0x49u8, 0x6E, 0x69, 0x74, 0x69, 0x61, 0x6C, 0x69, 0x7A, 0x65, 0x64, 0x20, 0x4D, 0x4D, 0x43, 0x20, 0x63, 0x6F, 0x6E, 0x74, 0x72, 0x6F, 0x6C, 0x6C, 0x65, 0x72]
}

/// `"Initialized MMC controller"`
pub fn initialized_mmc() -> (r: Vec<u8>)
    ensures
        r@ == s_initialized_mmc(),
{
    let mut v: Vec<u8> = Vec::new();
    v.push(0x49);
    v.push(0x6E);
    v.push(0x69);
    v.push(0x74);
    v.push(0x69);
    v.push(0x61);
    v.push(0x6C);
    v.push(0x69);
    v.push(0x7A);
    v.push(0x65);
    v.push(0x64);
    v.push(0x20);
    v.push(0x4D);
    v.push(0x4D);
    v.push(0x43);
    v.push(0x20);
    v.push(0x63);
    v.push(0x6F);
    v.push(0x6E);
    v.push(0x74);
    v.push(0x72);
    v.push(0x6F);
    v.push(0x6C);
    v.push(0x6C);
    v.push(0x65);
    v.push(0x72);
    proof {
        assert(v@ =~= s_initialized_mmc());
    }
    v
}

/// `"Copying kernel to 0x"`
pub open spec fn s_copying_kernel_to() -> Seq<u8> {
    seq![0x43u8, 0x6F, 0x70, 0x79, 0x69, 0x6E, 0x67, 0x20, 0x6B, 0x65, 0x72, 0x6E, 0x65, 0x6C, 0x20, 0x74, 0x6F, 0x20, 0x30, 0x78]
}

/// `"Copying kernel to 0x"`
pub fn copying_kernel_to() -> (r: Vec<u8>)
    ensures
        r@ == s_copying_kernel_to(),
{
    let mut v: Vec<u8> = Vec::new();
    v.push(0x43);
    v.push(0x6F);
    v.push(0x70);
    v.push(0x79);
    v.push(0x69);
    v.push(0x6E);
    v.push(0x67);
    v.push(0x20);
    v.push(0x6B);
    v.push(0x65);
    v.push(0x72);
    v.push(0x6E);
    v.push(0x65);
    v.push(0x6C);
    v.push(0x20);
    v.push(0x74);
    v.push(0x6F);
    v.push(0x20);
    v.push(0x30);
    v.push(0x78);
    proof {
        assert(v@ =~= s_copying_kernel_to());
    }
    v
}

/// `"Kernel size: "`
pub open spec fn s_kernel_size() -> Seq<u8> {
    seq![0x4Bu8, 0x65, 0x72, 0x6E, 0x65, 0x6C, 0x20, 0x73, 0x69, 0x7A, 0x65, 0x3A, 0x20]
}

/// `"Kernel size: "`
pub fn kernel_size() -> (r: Vec<u8>)
    ensures
        r@ == s_kernel_size(),
{
    let mut v: Vec<u8> = Vec::new();
    v.push(0x4B);
    v.push(0x65);
    v.push(0x72);
    v.push(0x6E);
    v.push(0x65);
    v.push(0x6C);
    v.push(0x20);
    v.push(0x73);
    v.push(0x69);
    v.push(0x7A);
    v.push(0x65);
    v.push(0x3A);
    v.push(0x20);
    proof {
        assert(v@ =~= s_kernel_size());
    }
    v
}

/// `"Copied kernel, jumping to kernel"`
pub open spec fn s_copied_kernel() -> Seq<u8> {
    seq![0x43u8, 0x6F, 0x70, 0x69, 0x65, 0x64, 0x20, 0x6B, 0x65, 0x72, 0x6E, 0x65, 0x6C, 0x2C, 0x20, 0x6A, 0x75, 0x6D, 0x70, 0x69, 0x6E, 0x67, 0x20, 0x74, 0x6F, 0x20, 0x6B, 0x65, 0x72, 0x6E, 0x65, 0x6C]
}

/// `"Copied kernel, jumping to kernel"`
pub fn copied_kernel() -> (r: Vec<u8>)
    ensures
        r@ == s_copied_kernel(),
{
    let mut v: Vec<u8> = Vec::new();
    v.push(0x43);
    v.push(0x6F);
    v.push(0x70);
    v.push(0x69);
    v.push(0x65);
    v.push(0x64);
    v.push(0x20);
    v.push(0x6B);
    v.push(0x65);
    v.push(0x72);
    v.push(0x6E);
    v.push(0x65);
    v.push(0x6C);
    v.push(0x2C);
    v.push(0x20);
    v.push(0x6A);
    v.push(0x75);
    v.push(0x6D);
    v.push(0x70);
    v.push(0x69);
    v.push(0x6E);
    v.push(0x67);
    v.push(0x20);
    v.push(0x74);
    v.push(0x6F);
    v.push(0x20);
    v.push(0x6B);
    v.push(0x65);
    v.push(0x72);
    v.push(0x6E);
    v.push(0x65);
    v.push(0x6C);
    proof {
        assert(v@ =~= s_copied_kernel());
    }
    v
}

} // verus!