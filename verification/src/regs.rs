//! TLSR8258 register addresses and field masks used by the drivers.

use vstd::prelude::*;

verus! {

pub const REG_RST0: u32 = 0x0080_0060;
pub const REG_RST1: u32 = 0x0080_0061;
pub const REG_CLK_EN0: u32 = 0x0080_0063;
pub const REG_CLK_SEL: u32 = 0x0080_0066;
pub const REG_PWDN_CTRL: u32 = 0x0080_006f;
pub const REG_MCU_WAKEUP_MASK: u32 = 0x0080_0078;
pub const FLD_RST0_I2C: u8 = 0x02;
pub const FLD_RST1_ZB: u8 = 0x01;
pub const FLD_RST1_ADC: u8 = 0x20;
pub const FLD_CLK0_I2C_EN: u8 = 0x02;
pub const FLD_CLK0_SPI_EN: u8 = 0x01;

pub const REG_I2C_SPEED: u32 = 0x0080_0000;
pub const REG_I2C_ID: u32 = 0x0080_0001;
pub const REG_I2C_STATUS: u32 = 0x0080_0002;
pub const REG_I2C_MODE: u32 = 0x0080_0003;
pub const REG_I2C_DO: u32 = 0x0080_0005;
pub const REG_I2C_DI: u32 = 0x0080_0006;
pub const REG_I2C_CTRL: u32 = 0x0080_0007;
pub const REG_SPI_SP: u32 = 0x0080_000a;
pub const FLD_SPI_ENABLE: u8 = 0x80;

pub const REG_TMR_CTRL: u32 = 0x0080_0620;
pub const REG_TMR_STA: u32 = 0x0080_0623;
pub const REG_TMR0_CAPT: u32 = 0x0080_0624;
pub const REG_TMR0_TICK: u32 = 0x0080_0630;
pub const REG_IRQ_MASK: u32 = 0x0080_0640;
pub const REG_IRQ_EN: u32 = 0x0080_0643;
pub const REG_IRQ_SRC: u32 = 0x0080_0648;

pub const REG_SYSTEM_TICK: u32 = 0x0080_0740;
pub const REG_SYSTEM_TICK_IRQ: u32 = 0x0080_0744;
pub const REG_SYSTEM_WAKEUP_TICK: u32 = 0x0080_0748;
pub const REG_SYSTEM_TICK_MODE: u32 = 0x0080_074c;
pub const REG_SYSTEM_TICK_CTRL: u32 = 0x0080_074f;

pub const REG_DFIFO2_ADDR: u32 = 0x0080_0c08;
pub const REG_DFIFO2_SIZE: u32 = 0x0080_0c0a;
pub const REG_DFIFO2_ADD_HI: u32 = 0x0080_0c0b;
pub const REG_DMA3_ADDR: u32 = 0x0080_0c0c;
pub const REG_DFIFO_MODE: u32 = 0x0080_0c10;
pub const FLD_AUD_DFIFO2_IN: u8 = 0x04;
pub const REG_DMA_TX_RDY0: u32 = 0x0080_0c24;
pub const REG_DMA2_ADDR_HI: u32 = 0x0080_0c42;
pub const REG_DMA3_ADDR_HI: u32 = 0x0080_0c43;
pub const REG_DMA2_ADDR: u32 = 0x0080_0c08;

pub const REG_RF_ACCESS_CODE: u32 = 0x0080_0408;
pub const REG_RF_CHANNEL: u32 = 0x0080_040d;
pub const REG_RF_CRC: u32 = 0x0080_044c;
pub const REG_RF_POWER: u32 = 0x0080_04a2;
pub const REG_PLL_RX_FINE_DIV_TUNE: u32 = 0x0080_04d6;
pub const REG_RF_MODE_CONTROL: u32 = 0x0080_0f00;
pub const REG_RF_SN: u32 = 0x0080_0f01;
pub const REG_RF_LL_CTRL_0: u32 = 0x0080_0f02;
pub const REG_RF_TX_SETTLE: u32 = 0x0080_0f04;
pub const REG_RF_LL_CTRL_2: u32 = 0x0080_0f15;
pub const REG_RF_LL_CTRL_3: u32 = 0x0080_0f16;
pub const REG_RST2: u32 = 0x0080_0062;
pub const REG_CLK_EN1: u32 = 0x0080_0064;
pub const REG_CLK_EN2: u32 = 0x0080_0065;
pub const REG_PM_INFO0: u32 = 0x0080_0048;
pub const REG_PM_INFO1: u32 = 0x0080_004c;
pub const REG_PM_WAKEUP_FLAG: u32 = 0x0080_007d;
pub const REG_GPIO_WAKEUP_IRQ: u32 = 0x0080_05b5;
pub const REG_PM_RET_CLR: u32 = 0x0080_0c20;
pub const REG_PM_RET_CTRL0: u32 = 0x0080_0c40;
pub const REG_PM_RET_CTRL1: u32 = 0x0080_0c44;
pub const REG_PM_RET_BYTE: u32 = 0x0080_0c48;
pub const ANA_USB_POWER: u8 = 0x34;
pub const ANA_USB_DP_PULLUP: u8 = 0x0b;
pub const REG_MSPI_DATA: u32 = 0x0080_000c;
pub const REG_MSPI_CTRL: u32 = 0x0080_000d;
pub const REG_GPIO_PE_IE: u32 = 0x0080_05a1;
pub const REG_SUSPEND_RET_ADDR_HI: u32 = 0x0080_060d;
pub const REG_RF_RSSI: u32 = 0x0080_0441;
pub const REG_RF_RX_STATUS: u32 = 0x0080_0448;
pub const REG_RF_SCHED_TICK: u32 = 0x0080_0f18;
pub const REG_RF_IRQ_MASK: u32 = 0x0080_0f1c;
pub const REG_RF_IRQ_STATUS: u32 = 0x0080_0f20;
pub const REG_RF_RX_MODE: u32 = 0x0080_0428;

pub const AREG_FLASH_VOLTAGE: u8 = 0x0c;
pub const AREG_CLK_SETTING: u8 = 0x82;
pub const FLD_CLK_24M_TO_SAR_EN: u8 = 0x40;
pub const AREG_ADC_VREF: u8 = 0xe7;
pub const AREG_ADC_MISC_INPUT: u8 = 0xe8;
pub const AREG_ADC_RESOLUTION_MISC: u8 = 0xec;
pub const AREG_ADC_STATE_LENGTH_MC: u8 = 0xef;
pub const AREG_ADC_STATE_LENGTH_C: u8 = 0xf0;
pub const AREG_ADC_STATE_LENGTH_S: u8 = 0xf1;
pub const AREG_ADC_CHANNEL_ENABLE: u8 = 0xf2;
pub const AREG_ADC_SAMPLING_CLK_DIV: u8 = 0xf4;
pub const AREG_ADC_MISC_H: u8 = 0xf8;
pub const AREG_ADC_VBAT_DIV: u8 = 0xf9;
pub const AREG_ADC_AIN_SCALE: u8 = 0xfa;
pub const AREG_ADC_PGA_CTRL: u8 = 0xfc;

} // verus!
