//! Register map of the SoC: base addresses, register offsets and field
//! masks for the clock module, control module, PMIC, I2C, UART, EMIF/DDR
//! and the two MMC controllers.

use vstd::prelude::*;

verus! {

// ---------------------------------------------------------------- bases

pub const CM_PER_BASE: u32 = 0x44E0_0000;
pub const CM_WKUP_BASE: u32 = 0x44E0_0400;
pub const CONTROL_MODULE_BASE: u32 = 0x44E1_0000;
pub const DDR_PHY_CTRL_BASE: u32 = CONTROL_MODULE_BASE + 0x2000;
pub const SOC_EMIF_0_REGS: u32 = 0x4C00_0000;
pub const I2C_BASE_ADDR: u32 = 0x44E0_B000;
pub const UART0_BASE_BBB: u32 = 0x44E0_9000;
pub const UART0_BASE_QEMU: u32 = 0x01C2_8000;
pub const MMC0_BASE_BBB: u32 = 0x4806_0000;
pub const MMC0_BASE_QEMU: u32 = 0x01C0_F000;

// ------------------------------------------------------------ CM (PRCM)

pub const CM_CLKMODE_DPLL_MPU: u32 = 0x88;
pub const CM_WKUP_CM_IDLEST_DPLL_MPU: u32 = 0x20;
pub const CM_WKUP_CM_CLKSEL_DPLL_MPU: u32 = 0x2C;
pub const CM_WKUP_CM_DIV_M2_DPLL_MPU: u32 = 0xA8;

pub const CM_WKUP_CM_CLKMODE_DPLL_CORE: u32 = 0x90;
pub const CM_WKUP_CM_IDLEST_DPLL_CORE: u32 = 0x5C;
pub const CM_WKUP_CM_CLKSEL_DPLL_CORE: u32 = 0x68;
pub const CM_WKUP_CM_DIV_M4_DPLL_CORE: u32 = 0x80;
pub const CM_WKUP_CM_DIV_M5_DPLL_CORE: u32 = 0x84;
pub const CM_WKUP_CM_DIV_M6_DPLL_CORE: u32 = 0xD8;

pub const CM_WKUP_CM_CLKMODE_DPLL_PER: u32 = 0x8C;
pub const CM_WKUP_CM_IDLEST_DPLL_PER: u32 = 0x70;
pub const CM_WKUP_CM_CLKSEL_DPLL_PERIPH: u32 = 0x9C;
pub const CM_WKUP_CM_DIV_M2_DPLL_PER: u32 = 0xAC;

pub const CM_WKUP_CM_CLKMODE_DPLL_DDR: u32 = 0x94;
pub const CM_WKUP_CM_IDLEST_DPLL_DDR: u32 = 0x34;
pub const CM_WKUP_CM_CLKSEL_DPLL_DDR: u32 = 0x40;
pub const CM_WKUP_CM_DIV_M2_DPLL_DDR: u32 = 0xA0;

/// `DPLL_EN` field of every `CM_CLKMODE_DPLL_*` register.
pub const DPLL_EN: u32 = 0x7;
pub const DPLL_EN_MN_BYP_MODE: u32 = 0x4;
pub const DPLL_EN_LOCK_MODE: u32 = 0x7;
/// Bits of every `CM_IDLEST_DPLL_*` register.
pub const ST_DPLL_CLK: u32 = 0x1;
pub const ST_MN_BYPASS: u32 = 0x100;

/// `CM_CLKSEL_DPLL_*` fields: multiplier bits 18:8, divider bits 6:0.
pub const DPLL_MULT: u32 = 0x7FF00;
pub const DPLL_MULT_SHIFT: u32 = 8;
pub const DPLL_DIV: u32 = 0x7F;
pub const DPLL_DIV_SHIFT: u32 = 0;
pub const DPLL_CLKOUT_DIV: u32 = 0x1F;
pub const HSDIVIDER_CLKOUT_DIV: u32 = 0x1F;
pub const HSDIVIDER_CLKOUT_DIV_SHIFT: u32 = 0;

// module clock control
pub const CM_PER_L3_CLKCTRL: u32 = 0xE0;
pub const CM_PER_L3_INSTR_CLKCTRL: u32 = 0xDC;
pub const CM_PER_L4LS_CLKCTRL: u32 = 0x60;
pub const CM_PER_L4FW_CLKCTRL: u32 = 0x64;
pub const CM_PER_L4HS_CLKCTRL: u32 = 0x120;
pub const CM_PER_EMIF_FW_CLKCTRL: u32 = 0xD0;
pub const CM_PER_EMIF_CLKCTRL: u32 = 0x28;
pub const CM_PER_MMC0_CLKCTRL: u32 = 0x3C;
pub const CM_WKUP_L4WKUP_CLKCTRL: u32 = 0x0C;
pub const CM_WKUP_CONTROL_CLKCTRL: u32 = 0x04;
pub const CM_WKUP_I2C0_CLKCTRL: u32 = 0xB8;
pub const CM_WKUP_UART0_CLKCTRL: u32 = 0xB4;

pub const CLKCTRL_MODULEMODE: u32 = 0x3;
pub const CLKCTRL_MODULEMODE_ENABLE: u32 = 0x2;
pub const CLKCTRL_IDLEST: u32 = 0x30000;
pub const CLKCTRL_IDLEST_SHIFT: u32 = 16;
pub const CLKCTRL_IDLEST_FUNC: u32 = 0x0;

// power-domain transition control
pub const CM_PER_L3_CLKSTCTRL: u32 = 0x0C;
pub const CM_PER_L4LS_CLKSTCTRL: u32 = 0x00;
pub const CM_PER_L3S_CLKSTCTRL: u32 = 0x04;
pub const CM_PER_L4FW_CLKSTCTRL: u32 = 0x08;
pub const CM_PER_OCPWP_L3_CLKSTCTRL: u32 = 0x12C;
pub const CM_WKUP_CLKSTCTRL: u32 = 0x00;
pub const CM_WKUP_CM_L3_AON_CLKSTCTRL: u32 = 0x18;
pub const CM_WKUP_CM_L4_WKUP_AON_CLKSTCTRL: u32 = 0xCC;

pub const CLKTRCTRL: u32 = 0x3;
pub const CLKTRCTRL_SW_WKUP: u32 = 0x2;

pub const CM_PER_L3_CLKSTCTRL_CLKACTIVITY_L3_GCLK: u32 = 0x10;
pub const CM_PER_L3_CLKSTCTRL_CLKACTIVITY_EMIF_GCLK: u32 = 0x4;
pub const CM_PER_OCPWP_L3_CLKSTCTRL_CLKACTIVITY_OCPWP_L3_GCLK: u32 = 0x10;
pub const CM_PER_L3S_CLKSTCTRL_CLKACTIVITY_L3S_GCLK: u32 = 0x8;
pub const CM_WKUP_CLKSTCTRL_CLKACTIVITY_L4_WKUP_GCLK: u32 = 0x4;
pub const CM_WKUP_CLKSTCTRL_CLKACTIVITY_I2C0_GFCLK: u32 = 0x800;
pub const CM_WKUP_CM_L3_AON_CLKSTCTRL_CLKACTIVITY_L3_AON_GCLK: u32 = 0x8;
pub const CM_WKUP_CM_L4_WKUP_AON_CLKSTCTRL_CLKACTIVITY_L4_WKUP_AON_GCLK: u32 = 0x4;

/// All `CLKACTIVITY` bits a healthy domain shows once it was woken.
pub const CLKSTCTRL_ACTIVITY_BITS: u32 = 0xFFF0;

// device identification
pub const CONTROL_DEVICE_ID: u32 = 0x600;
pub const CONTROL_DEVICE_ID_DEVREV_SHIFT: u32 = 28;
pub const CONTROL_EFUSE_SMA: u32 = 0x7FC;
pub const EFUSE_OPP_MASK: u32 = 0x1FFF;

pub const DEVICE_VERSION_1_0: u32 = 0;
pub const DEVICE_VERSION_2_0: u32 = 1;
pub const DEVICE_VERSION_2_1: u32 = 2;

// OPP efuse bits and the table rows they select
pub const EFUSE_OPPNT_1000_MASK: u32 = 0x0200;
pub const EFUSE_OPPTB_800_MASK: u32 = 0x0100;
pub const EFUSE_OPP120_720_MASK: u32 = 0x0050;
pub const EFUSE_OPP100_600_MASK: u32 = 0x0040;
pub const EFUSE_OPP100_300_MASK: u32 = 0x0020;

pub const EFUSE_OPPNT_1000: u32 = 9;
pub const EFUSE_OPPTB_800: u32 = 8;
pub const EFUSE_OPP120_720: u32 = 7;
pub const EFUSE_OPP100_600: u32 = 6;
pub const EFUSE_OPP100_300: u32 = 5;
pub const EFUSE_OPP50_300: u32 = 4;
pub const EFUSE_OPPTB_720: u32 = 3;
pub const OPP_NONE: u32 = 0xFFFF_FFFF;

// PLL constants for the DDR3 configuration
pub const MPUPLL_N: u32 = 23;
pub const MPUPLL_M2: u32 = 1;
pub const MPUPLL_M_275_MHZ: u32 = 275;
pub const MPUPLL_M_300_MHZ: u32 = 300;
pub const MPUPLL_M_500_MHZ: u32 = 500;
pub const MPUPLL_M_600_MHZ: u32 = 600;
pub const MPUPLL_M_720_MHZ: u32 = 720;
pub const MPUPLL_M_800_MHZ: u32 = 800;
pub const MPUPLL_M_1000_MHZ: u32 = 1000;
pub const COREPLL_M: u32 = 1000;
pub const COREPLL_N: u32 = 23;
pub const COREPLL_HSD_M4: u32 = 10;
pub const COREPLL_HSD_M5: u32 = 8;
pub const COREPLL_HSD_M6: u32 = 4;
pub const PERPLL_M: u32 = 960;
pub const PERPLL_N: u32 = 23;
pub const PERPLL_M2: u32 = 5;
pub const DDRPLL_M_DDR3: u32 = 400;
pub const DDRPLL_N: u32 = 23;
pub const DDRPLL_M2: u32 = 1;

// ------------------------------------------------------------------ I2C

pub const I2C_SYSC: u32 = 0x10;
pub const I2C_SYSS: u32 = 0x90;
pub const I2C_SA: u32 = 0xAC;
pub const I2C_CON: u32 = 0xA4;
pub const I2C_CNT: u32 = 0x98;
pub const I2C_DATA: u32 = 0x9C;
pub const I2C_PSC: u32 = 0xB0;
pub const I2C_SCLL: u32 = 0xB4;
pub const I2C_SCLH: u32 = 0xB8;
pub const I2C_IRQENABLE_CLR: u32 = 0x30;
pub const I2C_IRQSTATUS: u32 = 0x28;
pub const I2C_IRQSTATUS_RAW: u32 = 0x24;

pub const I2C_CON_I2C_EN: u32 = 0x8000;
pub const I2C_CON_STP: u32 = 0x2;
pub const I2C_CON_STT: u32 = 0x1;
pub const I2C_CON_TRX: u32 = 0x200;
pub const I2C_CON_MST: u32 = 0x400;
pub const I2C_SYSC_SRST: u32 = 0x2;
pub const I2C_SYSS_RDONE: u32 = 0x1;

pub const I2C_CFG_MST_TX: u32 = I2C_CON_MST | I2C_CON_TRX;
pub const I2C_CFG_MST_RX: u32 = I2C_CON_MST;

pub const I2C_IRQSTATUS_ARDY: u32 = 0x4;
pub const I2C_IRQSTATUS_RRDY: u32 = 0x8;
pub const I2C_IRQSTATUS_XRDY: u32 = 0x10;
pub const I2C_IRQSTATUS_BF: u32 = 0x100;
pub const I2C_IRQSTATUS_RAW_BB: u32 = 0x1000;

pub const I2C_INT_TRANSMIT_READY: u32 = I2C_IRQSTATUS_XRDY;
pub const I2C_INT_RECEIVE_READY: u32 = I2C_IRQSTATUS_RRDY;
pub const I2C_INT_ADRR_READY_ACESS: u32 = I2C_IRQSTATUS_ARDY;
pub const I2C_INT_STOP_CONDITION: u32 = I2C_IRQSTATUS_BF;
pub const I2C_INTERRUPT_FLAG_TO_CLR: u32 = 0x7FF;

pub const I2C_SYSTEM_CLOCK: u32 = 48_000_000;
pub const I2C_INTERNAL_CLOCK: u32 = 12_000_000;
pub const I2C_OUTPUT_CLOCK: u32 = 100_000;

pub const CONTROL_CONF_I2C0_SDA: u32 = 0x988;
pub const CONTROL_CONF_I2C0_SCL: u32 = 0x98C;
pub const CONF_I2C0_RXACTIVE: u32 = 0x20;
pub const CONF_I2C0_SLEWCTRL: u32 = 0x40;
pub const CONF_I2C0_PUTYPESEL: u32 = 0x10;

// ----------------------------------------------------------------- PMIC

pub const PMIC_TPS65217_I2C_SLAVE_ADDR: u8 = 0x24;
pub const EEPROM_I2C_SLAVE_ADDR: u8 = 0x50;

pub const STATUS: u8 = 0x0A;
pub const PASSWORD: u8 = 0x0B;
pub const POWER_PATH: u8 = 0x01;
pub const DEFDCDC1: u8 = 0x0E;
pub const DEFDCDC2: u8 = 0x0F;
pub const DEFDCDC3: u8 = 0x10;
pub const DEFSLEW: u8 = 0x11;
pub const DEFLS1: u8 = 0x14;
pub const DEFLS2: u8 = 0x15;

pub const PASSWORD_UNLOCK: u8 = 0x7D;
pub const MASK_ALL_BITS: u8 = 0xFF;
pub const PROT_LEVEL_NONE: u32 = 0;
pub const PROT_LEVEL_2: u32 = 2;
pub const DCDC_GO: u8 = 0x80;
pub const LDO_MASK: u8 = 0x1F;
pub const LDO_VOLTAGE_OUT_3_3: u8 = 0x1F;
pub const USB_INPUT_CUR_LIMIT_MASK: u8 = 0x03;
pub const USB_INPUT_CUR_LIMIT_1300MA: u8 = 0x02;
pub const DCDC_VOLT_SEL_1275MV: u8 = 0x0F;
pub const PMIC_VOLT_SEL_0950MV: u8 = 0x02;
pub const PMIC_VOLT_SEL_1100MV: u8 = 0x08;
pub const PMIC_VOLT_SEL_1200MV: u8 = 0x0C;
pub const PMIC_VOLT_SEL_1260MV: u8 = 0x0F;
pub const PMIC_VOLT_SEL_1325MV: u8 = 0x11;

// ----------------------------------------------------------------- UART

pub const UART_THR_OFF: u32 = 0x00;
pub const UART_DLL_OFF: u32 = 0x00;
pub const UART_IER_OFF: u32 = 0x04;
pub const UART_DLH_OFF: u32 = 0x04;
pub const UART_FCR_OFF: u32 = 0x08;
pub const UART_EFR_OFF: u32 = 0x08;
pub const UART_LCR_OFF: u32 = 0x0C;
pub const UART_MCR_OFF: u32 = 0x10;
pub const UART_LSR_OFF: u32 = 0x14;
pub const UART_TLR_OFF: u32 = 0x1C;
pub const UART_MDR1_OFF: u32 = 0x20;
pub const UART_SCR_OFF: u32 = 0x40;
pub const UART_SYSC_OFF: u32 = 0x54;
pub const UART_SYSS_OFF: u32 = 0x58;

pub const CONTROL_MODULE_CONF_UART0_RXD: u32 = 0x970;
pub const CONTROL_MODULE_CONF_UART0_TXD: u32 = 0x974;

// ------------------------------------------------------------- DRAM/EMIF

pub const DRAM_START: usize = 0x8000_0000;
pub const DRAM_END: usize = 0x9FFF_FFFF;
pub const DRAM_SIZE: usize = DRAM_END - DRAM_START + 1;

pub const CONTROL_VTP_CTRL: u32 = 0xE0C;
pub const CONTROL_VTP_CTRL_CLRZ: u32 = 0x1;
pub const CONTROL_VTP_CTRL_ENABLE: u32 = 0x40;
pub const CONTROL_VTP_CTRL_READY: u32 = 0x20;

pub const CONTROL_DDR_CKE_CTRL: u32 = 0x131C;
pub const CONTROL_DDR_CKE_CTRL_DDR_CKE_CTRL: u32 = 0x1;
pub const CONTROL_DDR_IO_CTRL: u32 = 0xE04;
pub const CONTROL_DDR_CMD_IOCTRL_0: u32 = 0x1404;
pub const CONTROL_DDR_CMD_IOCTRL_1: u32 = 0x1408;
pub const CONTROL_DDR_CMD_IOCTRL_2: u32 = 0x140C;
pub const CONTROL_DDR_DATA_IOCTRL_0: u32 = 0x1440;
pub const CONTROL_DDR_DATA_IOCTRL_1: u32 = 0x1444;
pub const CONTROL_SECURE_EMIF_SDRAM_CONFIG: u32 = 0x110;

pub const CMD0_SLAVE_RATIO_0: u32 = 0x1C;
pub const CMD0_INVERT_CLKOUT_0: u32 = 0x2C;
pub const CMD1_SLAVE_RATIO_0: u32 = 0x50;
pub const CMD1_INVERT_CLKOUT_0: u32 = 0x60;
pub const CMD2_SLAVE_RATIO_0: u32 = 0x84;
pub const CMD2_INVERT_CLKOUT_0: u32 = 0x94;
pub const DATA0_RD_DQS_SLAVE_RATIO_0: u32 = 0xC8;
pub const DATA0_WR_DQS_SLAVE_RATIO_0: u32 = 0xDC;
pub const DATA0_FIFO_WE_SLAVE_RATIO_0: u32 = 0x108;
pub const DATA0_WR_DATA_SLAVE_RATIO_0: u32 = 0x120;
pub const DATA1_RD_DQS_SLAVE_RATIO_1: u32 = 0x170;
pub const DATA1_WR_DQS_SLAVE_RATIO_1: u32 = 0x184;
pub const DATA1_FIFO_WE_SLAVE_RATIO_1: u32 = 0x1B0;
pub const DATA1_WR_DATA_SLAVE_RATIO_1: u32 = 0x1C8;

pub const DDR3_CMD0_SLAVE_RATIO_0: u32 = 0x80;
pub const DDR3_CMD0_INVERT_CLKOUT_0: u32 = 0x0;
pub const DDR3_CMD1_SLAVE_RATIO_0: u32 = 0x80;
pub const DDR3_CMD1_INVERT_CLKOUT_0: u32 = 0x0;
pub const DDR3_CMD2_SLAVE_RATIO_0: u32 = 0x80;
pub const DDR3_CMD2_INVERT_CLKOUT_0: u32 = 0x0;
pub const DDR3_DATA0_RD_DQS_SLAVE_RATIO_0: u32 = 0x38;
pub const DDR3_DATA0_WR_DQS_SLAVE_RATIO_0: u32 = 0x44;
pub const DDR3_DATA0_FIFO_WE_SLAVE_RATIO_0: u32 = 0x94;
pub const DDR3_DATA0_WR_DATA_SLAVE_RATIO_0: u32 = 0x7D;
pub const DDR3_DATA0_RD_DQS_SLAVE_RATIO_1: u32 = 0x38;
pub const DDR3_DATA0_WR_DQS_SLAVE_RATIO_1: u32 = 0x44;
pub const DDR3_DATA0_FIFO_WE_SLAVE_RATIO_1: u32 = 0x94;
pub const DDR3_DATA0_WR_DATA_SLAVE_RATIO_1: u32 = 0x7D;
pub const DDR3_CONTROL_DDR_CMD_IOCTRL_0: u32 = 0x18B;
pub const DDR3_CONTROL_DDR_CMD_IOCTRL_1: u32 = 0x18B;
pub const DDR3_CONTROL_DDR_CMD_IOCTRL_2: u32 = 0x18B;
pub const DDR3_CONTROL_DDR_DATA_IOCTRL_0: u32 = 0x18B;
pub const DDR3_CONTROL_DDR_DATA_IOCTRL_1: u32 = 0x18B;
pub const DDR3_CONTROL_DDR_IO_CTRL: u32 = 0xEFFF_FFFF;

pub const EMIF_DDR_PHY_CTRL_1: u32 = 0xE4;
pub const EMIF_DDR_PHY_CTRL_1_SHDW: u32 = 0xE8;
pub const EMIF_DDR_PHY_CTRL_2: u32 = 0xEC;
pub const EMIF_SDRAM_TIM_1: u32 = 0x18;
pub const EMIF_SDRAM_TIM_1_SHDW: u32 = 0x1C;
pub const EMIF_SDRAM_TIM_2: u32 = 0x20;
pub const EMIF_SDRAM_TIM_2_SHDW: u32 = 0x24;
pub const EMIF_SDRAM_TIM_3: u32 = 0x28;
pub const EMIF_SDRAM_TIM_3_SHDW: u32 = 0x2C;
pub const EMIF_SDRAM_REF_CTRL: u32 = 0x10;
pub const EMIF_SDRAM_REF_CTRL_SHDW: u32 = 0x14;
pub const EMIF_ZQ_CONFIG: u32 = 0xC8;
pub const EMIF_SDRAM_CONFIG: u32 = 0x8;

pub const DDR3_EMIF_DDR_PHY_CTRL_1: u32 = 0x06;
pub const DDR3_EMIF_DDR_PHY_CTRL_1_DY_PWRDN: u32 = 0x0010_0000;
pub const DDR3_EMIF_DDR_PHY_CTRL_1_SHDW: u32 = 0x06;
pub const DDR3_EMIF_DDR_PHY_CTRL_1_SHDW_DY_PWRDN: u32 = 0x0010_0000;
pub const DDR3_EMIF_DDR_PHY_CTRL_2: u32 = 0x06;
pub const DDR3_EMIF_SDRAM_TIM_1: u32 = 0x0AAA_D4DB;
pub const DDR3_EMIF_SDRAM_TIM_1_SHDW: u32 = 0x0AAA_D4DB;
pub const DDR3_EMIF_SDRAM_TIM_2: u32 = 0x266B_7FDA;
pub const DDR3_EMIF_SDRAM_TIM_2_SHDW: u32 = 0x266B_7FDA;
pub const DDR3_EMIF_SDRAM_TIM_3: u32 = 0x501F_867F;
pub const DDR3_EMIF_SDRAM_TIM_3_SHDM: u32 = 0x501F_867F;
pub const DDR3_EMIF_SDRAM_REF_CTRL_VAL1: u32 = 0x0C30;
pub const DDR3_EMIF_SDRAM_REF_CTRL_SHDW_VAL1: u32 = 0x0C30;
pub const DDR3_EMIF_ZQ_CONFIG_VAL: u32 = 0x5007_4BE4;
pub const DDR3_EMIF_SDRAM_CONFIG: u32 = 0x61C0_4BB2;

// ------------------------------------------------------------ MMC (BBB)

pub const MMC_SYSCONFIG: u32 = 0x110;
pub const MMC_SYSSTATUS: u32 = 0x114;
pub const MMC_CON: u32 = 0x12C;
pub const MMC_BLK: u32 = 0x204;
pub const MMC_ARG: u32 = 0x208;
pub const MMC_CMD: u32 = 0x20C;
pub const MMC_RSP10: u32 = 0x210;
pub const MMC_PSTATE: u32 = 0x224;
pub const MMC_HCTL: u32 = 0x228;
pub const MMC_SYSCTL: u32 = 0x22C;
pub const MMC_STAT: u32 = 0x230;
pub const MMC_IE: u32 = 0x234;
pub const MMC_CAPA: u32 = 0x240;

pub const MMC_SYSCONFIG_AUTOIDLE: u32 = 0x1;
pub const MMC_SYSCONFIG_SOFTRESET: u32 = 0x2;
pub const MMC_SYSCONFIG_ENAWAKEUP: u32 = 0x4;
pub const MMC_SYSCONFIG_SIDLEMODE: u32 = 0x18;
pub const MMC_SYSCONFIG_CLOCKACTIVITY: u32 = 0x300;
pub const MMC_SYSCONFIG_STANDBYMODE: u32 = 0x3000;
pub const MMC_SYSSTATUS_RESETDONE: u32 = 0x1;

pub const MMC_SYSCTL_ICE: u32 = 0x1;
pub const MMC_SYSCTL_ICS: u32 = 0x2;
pub const MMC_SYSCTL_ICS_SHIFT: u32 = 1;
pub const MMC_SYSCTL_CEN: u32 = 0x4;
pub const MMC_SYSCTL_CLKD: u32 = 0xFFC0;
pub const MMC_SYSCTL_CLKD_SHIFT: u32 = 6;
pub const MMC_SYSCTL_SRA: u32 = 0x0100_0000;
pub const MMC_SYSCTL_SRC: u32 = 0x0200_0000;
pub const MMC_SYSCTL_SRD: u32 = 0x0400_0000;

pub const MMC_CAPA_VS18: u32 = 0x0400_0000;
pub const MMC_CAPA_VS30: u32 = 0x0200_0000;
pub const MMC_CAPA_VS33: u32 = 0x0100_0000;

pub const MMCHS_HCTL_SDBP: u32 = 0x100;
pub const MMCHS_HCTL_SDVS: u32 = 0xE00;
pub const MMCHS_HCTL_SDVS_SHIFT: u32 = 9;
pub const MMCHS_HCTL_SDVS_3V0: u32 = 0x6;
pub const MMCHS_CON_INIT: u32 = 0x2;
pub const MMCHS_STAT_CC: u32 = 0x1;

pub const HS_MMCSD_ALL_RESET: u32 = MMC_SYSCTL_SRA;
pub const HS_MMCSD_SUPPORT_VOLT_1P8: u32 = MMC_CAPA_VS18;
pub const HS_MMCSD_SUPPORT_VOLT_3P0: u32 = MMC_CAPA_VS30;
pub const HS_MMCSD_BUS_VOLT_3P0: u32 = 0xC00;
pub const HS_MMCSD_BUS_POWER_ON: u32 = MMCHS_HCTL_SDBP;
pub const HS_MMCSD_BUS_POWER_OFF: u32 = 0;
pub const HS_MMCSD_INTCLOCK_ON: u32 = MMC_SYSCTL_ICE;
pub const HS_MMCSD_AUTOIDLE_ENABLE: u32 = MMC_SYSCONFIG_AUTOIDLE;
pub const HS_MMCSD_SIGEN_CMDCOMP: u32 = 0x1;

pub const MMCSD_IN_FREQ: u32 = 96_000_000;
pub const MMCSD_INIT_FREQ: u32 = 400_000;

pub const SD_CMDR_NO_RESPONSE: u32 = 0;
pub const SD_CMDR_LONG_RESPONSE: u32 = 0x1_0000;
pub const SD_CMDR_SHORT_RESPONSE: u32 = 0x2_0000;
pub const SD_CMDR_SHORT_RESPONSE_BUSY: u32 = 0x3_0000;

pub const CONTROL_CONF_MMC0_DAT3: u32 = 0x8F0;
pub const CONTROL_CONF_MMC0_DAT2: u32 = 0x8F4;
pub const CONTROL_CONF_MMC0_DAT1: u32 = 0x8F8;
pub const CONTROL_CONF_MMC0_DAT0: u32 = 0x8FC;
pub const CONTROL_CONF_MMC0_CLK: u32 = 0x900;
pub const CONTROL_CONF_MMC0_CMD: u32 = 0x904;
pub const CONF_MMC0_PUTYPESEL: u32 = 0x10;
pub const CONF_MMC0_RXACTIVE: u32 = 0x20;

// ----------------------------------------------------------- MMC (QEMU)

pub const MMC_GCTRL: u32 = 0x00;
pub const MMC_CLKCR: u32 = 0x04;
pub const MMC_BLKSZ: u32 = 0x10;
pub const MMC_QCMD: u32 = 0x18;
pub const MMC_QARG: u32 = 0x1C;
pub const MMC_RESP0: u32 = 0x20;
pub const MMC_RINT: u32 = 0x38;
pub const MMC_IDIE: u32 = 0x68;
pub const MMC_FIFO: u32 = 0x200;

pub const SD_RISR_CMD_COMPLETE: u32 = 0x4;
pub const SD_RISR_NO_RESPONSE: u32 = 0x2;
pub const SD_GCTL_SOFT_RST: u32 = 0x1;
pub const SD_CMDR_READ: u32 = 0x10;
pub const SD_CMDR_WRITE: u32 = 0;
pub const SD_CMDR_LOAD: u32 = 0x8000_0000;
pub const SD_CMDR_NO_RESP: u32 = 0;
pub const SD_CMDR_SHORT_RESP: u32 = 0x40;
pub const SD_CMDR_LONG_RESP: u32 = 0x80;

// -------------------------------------------------------------- EEPROM

pub const EEPROM_BOARD_HEADER_LEN: u32 = 4;
pub const EEPROM_BOARD_NAME_LEN: u32 = 8;
pub const EEPROM_BOARD_VERSION_LEN: u32 = 4;
pub const EEPROM_BOARD_SERIAL_LEN: u32 = 12;
pub const EEPROM_BOARD_INFO_LEN: u32 = EEPROM_BOARD_HEADER_LEN + EEPROM_BOARD_NAME_LEN
    + EEPROM_BOARD_SERIAL_LEN + EEPROM_BOARD_VERSION_LEN;

} // verus!
