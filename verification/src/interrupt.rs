//! External interrupt sources of the BS21 core (`chip_core_irq.h`).
//!
//! Lines 26-31 are standard `mie` bits; lines from 32 up are delivered by the
//! local interrupt controller.
use vstd::prelude::*;

verus! {

/// External interrupt sources (BS21).
#[allow(non_camel_case_types)]
#[derive(Debug, Clone, Copy, PartialEq, Eq)]
pub enum ExternalInterrupt {
    BT_INT0,
    BT_INT1,
    GADC_DONE,
    GADC_ALARM,
    MCU_PCLR_LOCK,
    ULP_GPIO,
    GPIO_0,
    GPIO_1,
    BT_TOGGLE_POS,
    BT_TOGGLE_NEG,
    KEY_SCAN_LOW_POWER,
    UART_0,
    MCU_SIMO1P1_VSET,
    UART_1,
    UART_2,
    QSPI0_2CS,
    PDM,
    KEY_SCAN,
    M_WAKEUP,
    M_SLEEP,
    RTC_0,
    RTC_1,
    RTC_2,
    RTC_3,
    TIMER_0,
    TIMER_1,
    TIMER_2,
    TIMER_3,
    M_SDMA,
    SPI_M_S_0,
    SPI_M_S_1,
    SPI_M,
    I2C_0,
    I2C_1,
    BT_BB_BT,
    BT_BB_BLE,
    BT_BB_GLE,
    I2S,
    RF_PRT,
    NFC,
    SEC,
    PWM_0,
    PWM_1,
    OSC_EN_WKUP,
    OSC_EN_SLEEP,
    PMU_CMU_ERR,
    ULP_INT,
    PMU2_CLK_32K_CALI,
    ULP_WKUP_INT,
    TSENSOR,
    QDEC,
    USB,
}

/// The interrupt line of each source.
pub open spec fn interrupt_line(irq: ExternalInterrupt) -> u16 {
    match irq {
        ExternalInterrupt::BT_INT0 => 26,
        ExternalInterrupt::BT_INT1 => 27,
        ExternalInterrupt::GADC_DONE => 28,
        ExternalInterrupt::GADC_ALARM => 29,
        ExternalInterrupt::MCU_PCLR_LOCK => 32,
        ExternalInterrupt::ULP_GPIO => 33,
        ExternalInterrupt::GPIO_0 => 34,
        ExternalInterrupt::GPIO_1 => 35,
        ExternalInterrupt::BT_TOGGLE_POS => 36,
        ExternalInterrupt::BT_TOGGLE_NEG => 37,
        ExternalInterrupt::KEY_SCAN_LOW_POWER => 38,
        ExternalInterrupt::UART_0 => 39,
        ExternalInterrupt::MCU_SIMO1P1_VSET => 40,
        ExternalInterrupt::UART_1 => 41,
        ExternalInterrupt::UART_2 => 42,
        ExternalInterrupt::QSPI0_2CS => 43,
        ExternalInterrupt::PDM => 44,
        ExternalInterrupt::KEY_SCAN => 46,
        ExternalInterrupt::M_WAKEUP => 47,
        ExternalInterrupt::M_SLEEP => 48,
        ExternalInterrupt::RTC_0 => 49,
        ExternalInterrupt::RTC_1 => 50,
        ExternalInterrupt::RTC_2 => 51,
        ExternalInterrupt::RTC_3 => 52,
        ExternalInterrupt::TIMER_0 => 53,
        ExternalInterrupt::TIMER_1 => 54,
        ExternalInterrupt::TIMER_2 => 55,
        ExternalInterrupt::TIMER_3 => 56,
        ExternalInterrupt::M_SDMA => 57,
        ExternalInterrupt::SPI_M_S_0 => 59,
        ExternalInterrupt::SPI_M_S_1 => 60,
        ExternalInterrupt::SPI_M => 61,
        ExternalInterrupt::I2C_0 => 62,
        ExternalInterrupt::I2C_1 => 63,
        ExternalInterrupt::BT_BB_BT => 64,
        ExternalInterrupt::BT_BB_BLE => 65,
        ExternalInterrupt::BT_BB_GLE => 66,
        ExternalInterrupt::I2S => 67,
        ExternalInterrupt::RF_PRT => 68,
        ExternalInterrupt::NFC => 69,
        ExternalInterrupt::SEC => 70,
        ExternalInterrupt::PWM_0 => 71,
        ExternalInterrupt::PWM_1 => 72,
        ExternalInterrupt::OSC_EN_WKUP => 73,
        ExternalInterrupt::OSC_EN_SLEEP => 74,
        ExternalInterrupt::PMU_CMU_ERR => 78,
        ExternalInterrupt::ULP_INT => 79,
        ExternalInterrupt::PMU2_CLK_32K_CALI => 85,
        ExternalInterrupt::ULP_WKUP_INT => 86,
        ExternalInterrupt::TSENSOR => 87,
        ExternalInterrupt::QDEC => 88,
        ExternalInterrupt::USB => 89,
    }
}

impl ExternalInterrupt {
    /// Interrupt line number of this source.
    pub fn number(self) -> (n: u16)
        ensures
            n == interrupt_line(self),
    {
        match self {
            ExternalInterrupt::BT_INT0 => 26,
            ExternalInterrupt::BT_INT1 => 27,
            ExternalInterrupt::GADC_DONE => 28,
            ExternalInterrupt::GADC_ALARM => 29,
            ExternalInterrupt::MCU_PCLR_LOCK => 32,
            ExternalInterrupt::ULP_GPIO => 33,
            ExternalInterrupt::GPIO_0 => 34,
            ExternalInterrupt::GPIO_1 => 35,
            ExternalInterrupt::BT_TOGGLE_POS => 36,
            ExternalInterrupt::BT_TOGGLE_NEG => 37,
            ExternalInterrupt::KEY_SCAN_LOW_POWER => 38,
            ExternalInterrupt::UART_0 => 39,
            ExternalInterrupt::MCU_SIMO1P1_VSET => 40,
            ExternalInterrupt::UART_1 => 41,
            ExternalInterrupt::UART_2 => 42,
            ExternalInterrupt::QSPI0_2CS => 43,
            ExternalInterrupt::PDM => 44,
            ExternalInterrupt::KEY_SCAN => 46,
            ExternalInterrupt::M_WAKEUP => 47,
            ExternalInterrupt::M_SLEEP => 48,
            ExternalInterrupt::RTC_0 => 49,
            ExternalInterrupt::RTC_1 => 50,
            ExternalInterrupt::RTC_2 => 51,
            ExternalInterrupt::RTC_3 => 52,
            ExternalInterrupt::TIMER_0 => 53,
            ExternalInterrupt::TIMER_1 => 54,
            ExternalInterrupt::TIMER_2 => 55,
            ExternalInterrupt::TIMER_3 => 56,
            ExternalInterrupt::M_SDMA => 57,
            ExternalInterrupt::SPI_M_S_0 => 59,
            ExternalInterrupt::SPI_M_S_1 => 60,
            ExternalInterrupt::SPI_M => 61,
            ExternalInterrupt::I2C_0 => 62,
            ExternalInterrupt::I2C_1 => 63,
            ExternalInterrupt::BT_BB_BT => 64,
            ExternalInterrupt::BT_BB_BLE => 65,
            ExternalInterrupt::BT_BB_GLE => 66,
            ExternalInterrupt::I2S => 67,
            ExternalInterrupt::RF_PRT => 68,
            ExternalInterrupt::NFC => 69,
            ExternalInterrupt::SEC => 70,
            ExternalInterrupt::PWM_0 => 71,
            ExternalInterrupt::PWM_1 => 72,
            ExternalInterrupt::OSC_EN_WKUP => 73,
            ExternalInterrupt::OSC_EN_SLEEP => 74,
            ExternalInterrupt::PMU_CMU_ERR => 78,
            ExternalInterrupt::ULP_INT => 79,
            ExternalInterrupt::PMU2_CLK_32K_CALI => 85,
            ExternalInterrupt::ULP_WKUP_INT => 86,
            ExternalInterrupt::TSENSOR => 87,
            ExternalInterrupt::QDEC => 88,
            ExternalInterrupt::USB => 89,
        }
    }

    /// The source wired to interrupt line `number`, if any.
    pub fn from_number(number: u16) -> (r: Option<ExternalInterrupt>)
        ensures
            r matches Some(irq) ==> interrupt_line(irq) == number,
            r is None ==> forall|irq: ExternalInterrupt| interrupt_line(irq) != number,
    {
        match number {
            26 => Some(ExternalInterrupt::BT_INT0),
            27 => Some(ExternalInterrupt::BT_INT1),
            28 => Some(ExternalInterrupt::GADC_DONE),
            29 => Some(ExternalInterrupt::GADC_ALARM),
            32 => Some(ExternalInterrupt::MCU_PCLR_LOCK),
            33 => Some(ExternalInterrupt::ULP_GPIO),
            34 => Some(ExternalInterrupt::GPIO_0),
            35 => Some(ExternalInterrupt::GPIO_1),
            36 => Some(ExternalInterrupt::BT_TOGGLE_POS),
            37 => Some(ExternalInterrupt::BT_TOGGLE_NEG),
            38 => Some(ExternalInterrupt::KEY_SCAN_LOW_POWER),
            39 => Some(ExternalInterrupt::UART_0),
            40 => Some(ExternalInterrupt::MCU_SIMO1P1_VSET),
            41 => Some(ExternalInterrupt::UART_1),
            42 => Some(ExternalInterrupt::UART_2),
            43 => Some(ExternalInterrupt::QSPI0_2CS),
            44 => Some(ExternalInterrupt::PDM),
            46 => Some(ExternalInterrupt::KEY_SCAN),
            47 => Some(ExternalInterrupt::M_WAKEUP),
            48 => Some(ExternalInterrupt::M_SLEEP),
            49 => Some(ExternalInterrupt::RTC_0),
            50 => Some(ExternalInterrupt::RTC_1),
            51 => Some(ExternalInterrupt::RTC_2),
            52 => Some(ExternalInterrupt::RTC_3),
            53 => Some(ExternalInterrupt::TIMER_0),
            54 => Some(ExternalInterrupt::TIMER_1),
            55 => Some(ExternalInterrupt::TIMER_2),
            56 => Some(ExternalInterrupt::TIMER_3),
            57 => Some(ExternalInterrupt::M_SDMA),
            59 => Some(ExternalInterrupt::SPI_M_S_0),
            60 => Some(ExternalInterrupt::SPI_M_S_1),
            61 => Some(ExternalInterrupt::SPI_M),
            62 => Some(ExternalInterrupt::I2C_0),
            63 => Some(ExternalInterrupt::I2C_1),
            64 => Some(ExternalInterrupt::BT_BB_BT),
            65 => Some(ExternalInterrupt::BT_BB_BLE),
            66 => Some(ExternalInterrupt::BT_BB_GLE),
            67 => Some(ExternalInterrupt::I2S),
            68 => Some(ExternalInterrupt::RF_PRT),
            69 => Some(ExternalInterrupt::NFC),
            70 => Some(ExternalInterrupt::SEC),
            71 => Some(ExternalInterrupt::PWM_0),
            72 => Some(ExternalInterrupt::PWM_1),
            73 => Some(ExternalInterrupt::OSC_EN_WKUP),
            74 => Some(ExternalInterrupt::OSC_EN_SLEEP),
            78 => Some(ExternalInterrupt::PMU_CMU_ERR),
            79 => Some(ExternalInterrupt::ULP_INT),
            85 => Some(ExternalInterrupt::PMU2_CLK_32K_CALI),
            86 => Some(ExternalInterrupt::ULP_WKUP_INT),
            87 => Some(ExternalInterrupt::TSENSOR),
            88 => Some(ExternalInterrupt::QDEC),
            89 => Some(ExternalInterrupt::USB),
            _ => None,
        }
    }
}

/// Every source is found again from its own line number.
pub proof fn lemma_line_round_trip(irq: ExternalInterrupt)
    ensures
        forall|other: ExternalInterrupt| interrupt_line(other) == interrupt_line(irq) ==> other == irq,
{
}

/// The line of every source, as `chip_core_irq.h` numbers them: the
/// standard `mie` lines 26 to 29, then the controller lines from 32 up
/// (45, 58, 75 to 77 and 80 to 84 are unused).
pub proof fn lemma_line_table()
    ensures
        interrupt_line(ExternalInterrupt::BT_INT0) == 26u16,
        interrupt_line(ExternalInterrupt::BT_INT1) == 27u16,
        interrupt_line(ExternalInterrupt::GADC_DONE) == 28u16,
        interrupt_line(ExternalInterrupt::GADC_ALARM) == 29u16,
        interrupt_line(ExternalInterrupt::MCU_PCLR_LOCK) == 32u16,
        interrupt_line(ExternalInterrupt::ULP_GPIO) == 33u16,
        interrupt_line(ExternalInterrupt::GPIO_0) == 34u16,
        interrupt_line(ExternalInterrupt::GPIO_1) == 35u16,
        interrupt_line(ExternalInterrupt::BT_TOGGLE_POS) == 36u16,
        interrupt_line(ExternalInterrupt::BT_TOGGLE_NEG) == 37u16,
        interrupt_line(ExternalInterrupt::KEY_SCAN_LOW_POWER) == 38u16,
        interrupt_line(ExternalInterrupt::UART_0) == 39u16,
        interrupt_line(ExternalInterrupt::MCU_SIMO1P1_VSET) == 40u16,
        interrupt_line(ExternalInterrupt::UART_1) == 41u16,
        interrupt_line(ExternalInterrupt::UART_2) == 42u16,
        interrupt_line(ExternalInterrupt::QSPI0_2CS) == 43u16,
        interrupt_line(ExternalInterrupt::PDM) == 44u16,
        interrupt_line(ExternalInterrupt::KEY_SCAN) == 46u16,
        interrupt_line(ExternalInterrupt::M_WAKEUP) == 47u16,
        interrupt_line(ExternalInterrupt::M_SLEEP) == 48u16,
        interrupt_line(ExternalInterrupt::RTC_0) == 49u16,
        interrupt_line(ExternalInterrupt::RTC_1) == 50u16,
        interrupt_line(ExternalInterrupt::RTC_2) == 51u16,
        interrupt_line(ExternalInterrupt::RTC_3) == 52u16,
        interrupt_line(ExternalInterrupt::TIMER_0) == 53u16,
        interrupt_line(ExternalInterrupt::TIMER_1) == 54u16,
        interrupt_line(ExternalInterrupt::TIMER_2) == 55u16,
        interrupt_line(ExternalInterrupt::TIMER_3) == 56u16,
        interrupt_line(ExternalInterrupt::M_SDMA) == 57u16,
        interrupt_line(ExternalInterrupt::SPI_M_S_0) == 59u16,
        interrupt_line(ExternalInterrupt::SPI_M_S_1) == 60u16,
        interrupt_line(ExternalInterrupt::SPI_M) == 61u16,
        interrupt_line(ExternalInterrupt::I2C_0) == 62u16,
        interrupt_line(ExternalInterrupt::I2C_1) == 63u16,
        interrupt_line(ExternalInterrupt::BT_BB_BT) == 64u16,
        interrupt_line(ExternalInterrupt::BT_BB_BLE) == 65u16,
        interrupt_line(ExternalInterrupt::BT_BB_GLE) == 66u16,
        interrupt_line(ExternalInterrupt::I2S) == 67u16,
        interrupt_line(ExternalInterrupt::RF_PRT) == 68u16,
        interrupt_line(ExternalInterrupt::NFC) == 69u16,
        interrupt_line(ExternalInterrupt::SEC) == 70u16,
        interrupt_line(ExternalInterrupt::PWM_0) == 71u16,
        interrupt_line(ExternalInterrupt::PWM_1) == 72u16,
        interrupt_line(ExternalInterrupt::OSC_EN_WKUP) == 73u16,
        interrupt_line(ExternalInterrupt::OSC_EN_SLEEP) == 74u16,
        interrupt_line(ExternalInterrupt::PMU_CMU_ERR) == 78u16,
        interrupt_line(ExternalInterrupt::ULP_INT) == 79u16,
        interrupt_line(ExternalInterrupt::PMU2_CLK_32K_CALI) == 85u16,
        interrupt_line(ExternalInterrupt::ULP_WKUP_INT) == 86u16,
        interrupt_line(ExternalInterrupt::TSENSOR) == 87u16,
        interrupt_line(ExternalInterrupt::QDEC) == 88u16,
        interrupt_line(ExternalInterrupt::USB) == 89u16,
{
}

/// The lines follow the header's declaration order and no two sources share
/// a line: a source declared later has a higher line.
pub proof fn lemma_lines_increase_in_declaration_order()
    ensures
        interrupt_line(ExternalInterrupt::BT_INT0) < interrupt_line(ExternalInterrupt::BT_INT1),
        interrupt_line(ExternalInterrupt::BT_INT1) < interrupt_line(ExternalInterrupt::GADC_DONE),
        interrupt_line(ExternalInterrupt::GADC_DONE) < interrupt_line(ExternalInterrupt::GADC_ALARM),
        interrupt_line(ExternalInterrupt::GADC_ALARM) < interrupt_line(ExternalInterrupt::MCU_PCLR_LOCK),
        interrupt_line(ExternalInterrupt::MCU_PCLR_LOCK) < interrupt_line(ExternalInterrupt::ULP_GPIO),
        interrupt_line(ExternalInterrupt::ULP_GPIO) < interrupt_line(ExternalInterrupt::GPIO_0),
        interrupt_line(ExternalInterrupt::GPIO_0) < interrupt_line(ExternalInterrupt::GPIO_1),
        interrupt_line(ExternalInterrupt::GPIO_1) < interrupt_line(ExternalInterrupt::BT_TOGGLE_POS),
        interrupt_line(ExternalInterrupt::BT_TOGGLE_POS) < interrupt_line(ExternalInterrupt::BT_TOGGLE_NEG),
        interrupt_line(ExternalInterrupt::BT_TOGGLE_NEG) < interrupt_line(ExternalInterrupt::KEY_SCAN_LOW_POWER),
        interrupt_line(ExternalInterrupt::KEY_SCAN_LOW_POWER) < interrupt_line(ExternalInterrupt::UART_0),
        interrupt_line(ExternalInterrupt::UART_0) < interrupt_line(ExternalInterrupt::MCU_SIMO1P1_VSET),
        interrupt_line(ExternalInterrupt::MCU_SIMO1P1_VSET) < interrupt_line(ExternalInterrupt::UART_1),
        interrupt_line(ExternalInterrupt::UART_1) < interrupt_line(ExternalInterrupt::UART_2),
        interrupt_line(ExternalInterrupt::UART_2) < interrupt_line(ExternalInterrupt::QSPI0_2CS),
        interrupt_line(ExternalInterrupt::QSPI0_2CS) < interrupt_line(ExternalInterrupt::PDM),
        interrupt_line(ExternalInterrupt::PDM) < interrupt_line(ExternalInterrupt::KEY_SCAN),
        interrupt_line(ExternalInterrupt::KEY_SCAN) < interrupt_line(ExternalInterrupt::M_WAKEUP),
        interrupt_line(ExternalInterrupt::M_WAKEUP) < interrupt_line(ExternalInterrupt::M_SLEEP),
        interrupt_line(ExternalInterrupt::M_SLEEP) < interrupt_line(ExternalInterrupt::RTC_0),
        interrupt_line(ExternalInterrupt::RTC_0) < interrupt_line(ExternalInterrupt::RTC_1),
        interrupt_line(ExternalInterrupt::RTC_1) < interrupt_line(ExternalInterrupt::RTC_2),
        interrupt_line(ExternalInterrupt::RTC_2) < interrupt_line(ExternalInterrupt::RTC_3),
        interrupt_line(ExternalInterrupt::RTC_3) < interrupt_line(ExternalInterrupt::TIMER_0),
        interrupt_line(ExternalInterrupt::TIMER_0) < interrupt_line(ExternalInterrupt::TIMER_1),
        interrupt_line(ExternalInterrupt::TIMER_1) < interrupt_line(ExternalInterrupt::TIMER_2),
        interrupt_line(ExternalInterrupt::TIMER_2) < interrupt_line(ExternalInterrupt::TIMER_3),
        interrupt_line(ExternalInterrupt::TIMER_3) < interrupt_line(ExternalInterrupt::M_SDMA),
        interrupt_line(ExternalInterrupt::M_SDMA) < interrupt_line(ExternalInterrupt::SPI_M_S_0),
        interrupt_line(ExternalInterrupt::SPI_M_S_0) < interrupt_line(ExternalInterrupt::SPI_M_S_1),
        interrupt_line(ExternalInterrupt::SPI_M_S_1) < interrupt_line(ExternalInterrupt::SPI_M),
        interrupt_line(ExternalInterrupt::SPI_M) < interrupt_line(ExternalInterrupt::I2C_0),
        interrupt_line(ExternalInterrupt::I2C_0) < interrupt_line(ExternalInterrupt::I2C_1),
        interrupt_line(ExternalInterrupt::I2C_1) < interrupt_line(ExternalInterrupt::BT_BB_BT),
        interrupt_line(ExternalInterrupt::BT_BB_BT) < interrupt_line(ExternalInterrupt::BT_BB_BLE),
        interrupt_line(ExternalInterrupt::BT_BB_BLE) < interrupt_line(ExternalInterrupt::BT_BB_GLE),
        interrupt_line(ExternalInterrupt::BT_BB_GLE) < interrupt_line(ExternalInterrupt::I2S),
        interrupt_line(ExternalInterrupt::I2S) < interrupt_line(ExternalInterrupt::RF_PRT),
        interrupt_line(ExternalInterrupt::RF_PRT) < interrupt_line(ExternalInterrupt::NFC),
        interrupt_line(ExternalInterrupt::NFC) < interrupt_line(ExternalInterrupt::SEC),
        interrupt_line(ExternalInterrupt::SEC) < interrupt_line(ExternalInterrupt::PWM_0),
        interrupt_line(ExternalInterrupt::PWM_0) < interrupt_line(ExternalInterrupt::PWM_1),
        interrupt_line(ExternalInterrupt::PWM_1) < interrupt_line(ExternalInterrupt::OSC_EN_WKUP),
        interrupt_line(ExternalInterrupt::OSC_EN_WKUP) < interrupt_line(ExternalInterrupt::OSC_EN_SLEEP),
        interrupt_line(ExternalInterrupt::OSC_EN_SLEEP) < interrupt_line(ExternalInterrupt::PMU_CMU_ERR),
        interrupt_line(ExternalInterrupt::PMU_CMU_ERR) < interrupt_line(ExternalInterrupt::ULP_INT),
        interrupt_line(ExternalInterrupt::ULP_INT) < interrupt_line(ExternalInterrupt::PMU2_CLK_32K_CALI),
        interrupt_line(ExternalInterrupt::PMU2_CLK_32K_CALI) < interrupt_line(ExternalInterrupt::ULP_WKUP_INT),
        interrupt_line(ExternalInterrupt::ULP_WKUP_INT) < interrupt_line(ExternalInterrupt::TSENSOR),
        interrupt_line(ExternalInterrupt::TSENSOR) < interrupt_line(ExternalInterrupt::QDEC),
        interrupt_line(ExternalInterrupt::QDEC) < interrupt_line(ExternalInterrupt::USB),
{
}

} // verus!
