//! Final status codes of the Dash7 stack.
use vstd::prelude::*;

verus! {

/// Final status of a transmission on an interface.
#[derive(Clone, Copy, Debug, PartialEq, Eq)]
pub enum InterfaceFinalStatusCode {
    /// No error
    No,
    /// Resource busy
    Busy,
    /// bad parameter
    BadParam,
    /// duty cycle limit overflow
    DutyCycle,
    /// cca timeout
    CcaTo,
    /// security frame counter overflow
    NlsKey,
    /// tx stream underflow
    TxUdf,
    /// rx stream overflow
    RxOvf,
    /// rx checksum
    RxCrc,
    /// abort
    Abort,
    /// no ack received
    NoAck,
    /// rx timeout
    RxTo,
    /// not supported band
    NotSupportedBand,
    /// not supported channel
    NotSupportedChannel,
    /// not supported modulation
    NotSupportedModulation,
    /// no channels in list
    VoidChannelList,
    /// not supported packet length
    NotSupportedLen,
    /// parameter overflow
    ParamOvf,
    /// vid used without nls
    VidWoNls,
    /// tx scheduling late
    TxSched,
    /// rx scheduling late
    RxSched,
    /// parameter overflow
    BufferOvf,
    /// mode not supported
    NotSupportedMode,
}

impl InterfaceFinalStatusCode {
    /// Number of the status code.
    pub open spec fn spec_code(self) -> u8 {
        match self {
            Self::No => 0x00,
            Self::Busy => 0xFF,
            Self::BadParam => 0xFE,
            Self::DutyCycle => 0xFD,
            Self::CcaTo => 0xFC,
            Self::NlsKey => 0xFB,
            Self::TxUdf => 0xFA,
            Self::RxOvf => 0xF9,
            Self::RxCrc => 0xF8,
            Self::Abort => 0xF7,
            Self::NoAck => 0xF6,
            Self::RxTo => 0xF5,
            Self::NotSupportedBand => 0xF4,
            Self::NotSupportedChannel => 0xF3,
            Self::NotSupportedModulation => 0xF2,
            Self::VoidChannelList => 0xF1,
            Self::NotSupportedLen => 0xF0,
            Self::ParamOvf => 0xEF,
            Self::VidWoNls => 0xEE,
            Self::TxSched => 0xED,
            Self::RxSched => 0xEC,
            Self::BufferOvf => 0xEB,
            Self::NotSupportedMode => 0xEA,
        }
    }

    /// The status code whose number is `n`, if there is one.
    pub open spec fn spec_from(n: u8) -> Option<Self> {
        match n {
            0x00 => Some(Self::No),
            0xFF => Some(Self::Busy),
            0xFE => Some(Self::BadParam),
            0xFD => Some(Self::DutyCycle),
            0xFC => Some(Self::CcaTo),
            0xFB => Some(Self::NlsKey),
            0xFA => Some(Self::TxUdf),
            0xF9 => Some(Self::RxOvf),
            0xF8 => Some(Self::RxCrc),
            0xF7 => Some(Self::Abort),
            0xF6 => Some(Self::NoAck),
            0xF5 => Some(Self::RxTo),
            0xF4 => Some(Self::NotSupportedBand),
            0xF3 => Some(Self::NotSupportedChannel),
            0xF2 => Some(Self::NotSupportedModulation),
            0xF1 => Some(Self::VoidChannelList),
            0xF0 => Some(Self::NotSupportedLen),
            0xEF => Some(Self::ParamOvf),
            0xEE => Some(Self::VidWoNls),
            0xED => Some(Self::TxSched),
            0xEC => Some(Self::RxSched),
            0xEB => Some(Self::BufferOvf),
            0xEA => Some(Self::NotSupportedMode),
            _ => None,
        }
    }

    pub fn code(self) -> (r: u8)
        ensures
            r == self.spec_code(),
    {
        match self {
            Self::No => 0x00,
            Self::Busy => 0xFF,
            Self::BadParam => 0xFE,
            Self::DutyCycle => 0xFD,
            Self::CcaTo => 0xFC,
            Self::NlsKey => 0xFB,
            Self::TxUdf => 0xFA,
            Self::RxOvf => 0xF9,
            Self::RxCrc => 0xF8,
            Self::Abort => 0xF7,
            Self::NoAck => 0xF6,
            Self::RxTo => 0xF5,
            Self::NotSupportedBand => 0xF4,
            Self::NotSupportedChannel => 0xF3,
            Self::NotSupportedModulation => 0xF2,
            Self::VoidChannelList => 0xF1,
            Self::NotSupportedLen => 0xF0,
            Self::ParamOvf => 0xEF,
            Self::VidWoNls => 0xEE,
            Self::TxSched => 0xED,
            Self::RxSched => 0xEC,
            Self::BufferOvf => 0xEB,
            Self::NotSupportedMode => 0xEA,
        }
    }

    /// # Errors
    /// Fails with `n` itself when no status code has that number.
    pub fn try_from(n: u8) -> (r: Result<Self, u8>)
        ensures
            r matches Ok(code) ==> Self::spec_from(n) == Some(code),
            r matches Err(x) ==> Self::spec_from(n) is None && x == n,
    {
        match n {
            0x00 => Ok(Self::No),
            0xFF => Ok(Self::Busy),
            0xFE => Ok(Self::BadParam),
            0xFD => Ok(Self::DutyCycle),
            0xFC => Ok(Self::CcaTo),
            0xFB => Ok(Self::NlsKey),
            0xFA => Ok(Self::TxUdf),
            0xF9 => Ok(Self::RxOvf),
            0xF8 => Ok(Self::RxCrc),
            0xF7 => Ok(Self::Abort),
            0xF6 => Ok(Self::NoAck),
            0xF5 => Ok(Self::RxTo),
            0xF4 => Ok(Self::NotSupportedBand),
            0xF3 => Ok(Self::NotSupportedChannel),
            0xF2 => Ok(Self::NotSupportedModulation),
            0xF1 => Ok(Self::VoidChannelList),
            0xF0 => Ok(Self::NotSupportedLen),
            0xEF => Ok(Self::ParamOvf),
            0xEE => Ok(Self::VidWoNls),
            0xED => Ok(Self::TxSched),
            0xEC => Ok(Self::RxSched),
            0xEB => Ok(Self::BufferOvf),
            0xEA => Ok(Self::NotSupportedMode),
            x => Err(x),
        }
    }

    /// Short name of the status code.
    pub open spec fn spec_name(self) -> Seq<char> {
        match self {
            Self::No => "NO"@,
            Self::Busy => "BUSY"@,
            Self::BadParam => "BAD_PRM"@,
            Self::DutyCycle => "DUTY_C"@,
            Self::CcaTo => "CCA_TO"@,
            Self::NlsKey => "NLS_KEY"@,
            Self::TxUdf => "TX_UDF"@,
            Self::RxOvf => "RX_OVF"@,
            Self::RxCrc => "RX_CRC"@,
            Self::Abort => "ABORT"@,
            Self::NoAck => "NO_ACK"@,
            Self::RxTo => "RX_TO"@,
            Self::NotSupportedBand => "UNS_BAND"@,
            Self::NotSupportedChannel => "UNS_CH"@,
            Self::NotSupportedModulation => "UNS_MOD"@,
            Self::VoidChannelList => "VOID_CHL"@,
            Self::NotSupportedLen => "UNS_LEN"@,
            Self::ParamOvf => "PRM_OVF"@,
            Self::VidWoNls => "VID_WO_NLS"@,
            Self::TxSched => "TX_SCHD"@,
            Self::RxSched => "RX_SCHD"@,
            Self::BufferOvf => "BUF_OVF"@,
            Self::NotSupportedMode => "UNS_MODE"@,
        }
    }

    /// Short name of the status code, as printed.
    pub fn name(self) -> (r: &'static str)
        ensures
            r@ == self.spec_name(),
    {
        match self {
            Self::No => "NO",
            Self::Busy => "BUSY",
            Self::BadParam => "BAD_PRM",
            Self::DutyCycle => "DUTY_C",
            Self::CcaTo => "CCA_TO",
            Self::NlsKey => "NLS_KEY",
            Self::TxUdf => "TX_UDF",
            Self::RxOvf => "RX_OVF",
            Self::RxCrc => "RX_CRC",
            Self::Abort => "ABORT",
            Self::NoAck => "NO_ACK",
            Self::RxTo => "RX_TO",
            Self::NotSupportedBand => "UNS_BAND",
            Self::NotSupportedChannel => "UNS_CH",
            Self::NotSupportedModulation => "UNS_MOD",
            Self::VoidChannelList => "VOID_CHL",
            Self::NotSupportedLen => "UNS_LEN",
            Self::ParamOvf => "PRM_OVF",
            Self::VidWoNls => "VID_WO_NLS",
            Self::TxSched => "TX_SCHD",
            Self::RxSched => "RX_SCHD",
            Self::BufferOvf => "BUF_OVF",
            Self::NotSupportedMode => "UNS_MODE",
        }
    }
}

/// Reading a status code back from its number gives it back.
pub proof fn lemma_code_roundtrip(code: InterfaceFinalStatusCode)
    ensures
        InterfaceFinalStatusCode::spec_from(code.spec_code()) == Some(code),
{
}

/// Each final status code has the number that the WizziLab stack gives it: no error 0x00,
/// then from busy 0xFF down to unsupported mode 0xEA; decoding a number gives the code of that
/// number, and only these numbers decode.
pub proof fn lemma_final_status_numbers()
    ensures
        InterfaceFinalStatusCode::No.spec_code() == 0x00,
        InterfaceFinalStatusCode::Busy.spec_code() == 0xFF,
        InterfaceFinalStatusCode::BadParam.spec_code() == 0xFE,
        InterfaceFinalStatusCode::DutyCycle.spec_code() == 0xFD,
        InterfaceFinalStatusCode::CcaTo.spec_code() == 0xFC,
        InterfaceFinalStatusCode::NlsKey.spec_code() == 0xFB,
        InterfaceFinalStatusCode::TxUdf.spec_code() == 0xFA,
        InterfaceFinalStatusCode::RxOvf.spec_code() == 0xF9,
        InterfaceFinalStatusCode::RxCrc.spec_code() == 0xF8,
        InterfaceFinalStatusCode::Abort.spec_code() == 0xF7,
        InterfaceFinalStatusCode::NoAck.spec_code() == 0xF6,
        InterfaceFinalStatusCode::RxTo.spec_code() == 0xF5,
        InterfaceFinalStatusCode::NotSupportedBand.spec_code() == 0xF4,
        InterfaceFinalStatusCode::NotSupportedChannel.spec_code() == 0xF3,
        InterfaceFinalStatusCode::NotSupportedModulation.spec_code() == 0xF2,
        InterfaceFinalStatusCode::VoidChannelList.spec_code() == 0xF1,
        InterfaceFinalStatusCode::NotSupportedLen.spec_code() == 0xF0,
        InterfaceFinalStatusCode::ParamOvf.spec_code() == 0xEF,
        InterfaceFinalStatusCode::VidWoNls.spec_code() == 0xEE,
        InterfaceFinalStatusCode::TxSched.spec_code() == 0xED,
        InterfaceFinalStatusCode::RxSched.spec_code() == 0xEC,
        InterfaceFinalStatusCode::BufferOvf.spec_code() == 0xEB,
        InterfaceFinalStatusCode::NotSupportedMode.spec_code() == 0xEA,
        forall|n: u8| (#[trigger] InterfaceFinalStatusCode::spec_from(n)) matches Some(c) ==> c.spec_code() == n,
        forall|n: u8| InterfaceFinalStatusCode::spec_from(n) is None <==> (0 < n && n < 0xEA),
{
}

/// The printed name of each final status code, as the WizziLab tools print it.
pub proof fn lemma_final_status_names()
    ensures
        InterfaceFinalStatusCode::No.spec_name() == seq!['N', 'O'],
        InterfaceFinalStatusCode::Busy.spec_name() == seq!['B', 'U', 'S', 'Y'],
        InterfaceFinalStatusCode::BadParam.spec_name() == seq!['B', 'A', 'D', '_', 'P', 'R', 'M'],
        InterfaceFinalStatusCode::DutyCycle.spec_name() == seq!['D', 'U', 'T', 'Y', '_', 'C'],
        InterfaceFinalStatusCode::CcaTo.spec_name() == seq!['C', 'C', 'A', '_', 'T', 'O'],
        InterfaceFinalStatusCode::NlsKey.spec_name() == seq!['N', 'L', 'S', '_', 'K', 'E', 'Y'],
        InterfaceFinalStatusCode::TxUdf.spec_name() == seq!['T', 'X', '_', 'U', 'D', 'F'],
        InterfaceFinalStatusCode::RxOvf.spec_name() == seq!['R', 'X', '_', 'O', 'V', 'F'],
        InterfaceFinalStatusCode::RxCrc.spec_name() == seq!['R', 'X', '_', 'C', 'R', 'C'],
        InterfaceFinalStatusCode::Abort.spec_name() == seq!['A', 'B', 'O', 'R', 'T'],
        InterfaceFinalStatusCode::NoAck.spec_name() == seq!['N', 'O', '_', 'A', 'C', 'K'],
        InterfaceFinalStatusCode::RxTo.spec_name() == seq!['R', 'X', '_', 'T', 'O'],
        InterfaceFinalStatusCode::NotSupportedBand.spec_name() == seq!['U', 'N', 'S', '_', 'B', 'A', 'N', 'D'],
        InterfaceFinalStatusCode::NotSupportedChannel.spec_name() == seq!['U', 'N', 'S', '_', 'C', 'H'],
        InterfaceFinalStatusCode::NotSupportedModulation.spec_name() == seq!['U', 'N', 'S', '_', 'M', 'O', 'D'],
        InterfaceFinalStatusCode::VoidChannelList.spec_name() == seq!['V', 'O', 'I', 'D', '_', 'C', 'H', 'L'],
        InterfaceFinalStatusCode::NotSupportedLen.spec_name() == seq!['U', 'N', 'S', '_', 'L', 'E', 'N'],
        InterfaceFinalStatusCode::ParamOvf.spec_name() == seq!['P', 'R', 'M', '_', 'O', 'V', 'F'],
        InterfaceFinalStatusCode::VidWoNls.spec_name() == seq!['V', 'I', 'D', '_', 'W', 'O', '_', 'N', 'L', 'S'],
        InterfaceFinalStatusCode::TxSched.spec_name() == seq!['T', 'X', '_', 'S', 'C', 'H', 'D'],
        InterfaceFinalStatusCode::RxSched.spec_name() == seq!['R', 'X', '_', 'S', 'C', 'H', 'D'],
        InterfaceFinalStatusCode::BufferOvf.spec_name() == seq!['B', 'U', 'F', '_', 'O', 'V', 'F'],
        InterfaceFinalStatusCode::NotSupportedMode.spec_name() == seq!['U', 'N', 'S', '_', 'M', 'O', 'D', 'E'],
{
    reveal_strlit("ABORT");
    reveal_strlit("BAD_PRM");
    reveal_strlit("BUF_OVF");
    reveal_strlit("BUSY");
    reveal_strlit("CCA_TO");
    reveal_strlit("DUTY_C");
    reveal_strlit("NLS_KEY");
    reveal_strlit("NO");
    reveal_strlit("NO_ACK");
    reveal_strlit("PRM_OVF");
    reveal_strlit("RX_CRC");
    reveal_strlit("RX_OVF");
    reveal_strlit("RX_SCHD");
    reveal_strlit("RX_TO");
    reveal_strlit("TX_SCHD");
    reveal_strlit("TX_UDF");
    reveal_strlit("UNS_BAND");
    reveal_strlit("UNS_CH");
    reveal_strlit("UNS_LEN");
    reveal_strlit("UNS_MOD");
    reveal_strlit("UNS_MODE");
    reveal_strlit("VID_WO_NLS");
    reveal_strlit("VOID_CHL");
}

} // verus!
