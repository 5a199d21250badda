//! Enumerations of the ECI engine interface, with their numeric codes.

use vstd::prelude::*;

verus! {

/// An engine parameter that `eciGetParam` and `eciSetParam` address.
#[derive(Debug, Copy, Clone, PartialEq, Eq, Structural)]
#[allow(non_camel_case_types)]
pub enum ECIParam {
    eciSynthMode,
    eciInputType,
    eciTextMode,
    eciDictionary,
    eciSampleRate,
    eciWantPhonemeIndices,
    eciRealWorldUnits,
    eciLanguageDialect,
    eciNumberMode,
    eciWantWordIndex,
    eciNumDeviceBlocks,
    eciSizeDeviceBlocks,
    eciNumPrerollDeviceBlocks,
    eciSizePrerollDeviceBlocks,
    eciNumParams,
}

impl ECIParam {
    pub open spec fn spec_value(self) -> i32 {
        match self {
            ECIParam::eciSynthMode => 0,
            ECIParam::eciInputType => 1,
            ECIParam::eciTextMode => 2,
            ECIParam::eciDictionary => 3,
            ECIParam::eciSampleRate => 5,
            ECIParam::eciWantPhonemeIndices => 7,
            ECIParam::eciRealWorldUnits => 8,
            ECIParam::eciLanguageDialect => 9,
            ECIParam::eciNumberMode => 10,
            ECIParam::eciWantWordIndex => 12,
            ECIParam::eciNumDeviceBlocks => 13,
            ECIParam::eciSizeDeviceBlocks => 14,
            ECIParam::eciNumPrerollDeviceBlocks => 15,
            ECIParam::eciSizePrerollDeviceBlocks => 16,
            ECIParam::eciNumParams => 17,
        }
    }

    /// The numeric code of this value in the engine's interface.
    pub fn value(self) -> (r: i32)
        ensures
            r == self.spec_value(),
    {
        match self {
            ECIParam::eciSynthMode => 0,
            ECIParam::eciInputType => 1,
            ECIParam::eciTextMode => 2,
            ECIParam::eciDictionary => 3,
            ECIParam::eciSampleRate => 5,
            ECIParam::eciWantPhonemeIndices => 7,
            ECIParam::eciRealWorldUnits => 8,
            ECIParam::eciLanguageDialect => 9,
            ECIParam::eciNumberMode => 10,
            ECIParam::eciWantWordIndex => 12,
            ECIParam::eciNumDeviceBlocks => 13,
            ECIParam::eciSizeDeviceBlocks => 14,
            ECIParam::eciNumPrerollDeviceBlocks => 15,
            ECIParam::eciSizePrerollDeviceBlocks => 16,
            ECIParam::eciNumParams => 17,
        }
    }
}

/// A voice parameter that `eciGetVoiceParam` and `eciSetVoiceParam` address.
#[derive(Debug, Copy, Clone, PartialEq, Eq, Structural)]
#[allow(non_camel_case_types)]
pub enum ECIVoiceParam {
    eciGender,
    eciHeadSize,
    eciPitchBaseline,
    eciPitchFluctuation,
    eciRoughness,
    eciBreathiness,
    eciSpeed,
    eciVolume,
    eciNumVoiceParams,
}

impl ECIVoiceParam {
    pub open spec fn spec_value(self) -> i32 {
        match self {
            ECIVoiceParam::eciGender => 0,
            ECIVoiceParam::eciHeadSize => 1,
            ECIVoiceParam::eciPitchBaseline => 2,
            ECIVoiceParam::eciPitchFluctuation => 3,
            ECIVoiceParam::eciRoughness => 4,
            ECIVoiceParam::eciBreathiness => 5,
            ECIVoiceParam::eciSpeed => 6,
            ECIVoiceParam::eciVolume => 7,
            ECIVoiceParam::eciNumVoiceParams => 8,
        }
    }

    /// The numeric code of this value in the engine's interface.
    pub fn value(self) -> (r: i32)
        ensures
            r == self.spec_value(),
    {
        match self {
            ECIVoiceParam::eciGender => 0,
            ECIVoiceParam::eciHeadSize => 1,
            ECIVoiceParam::eciPitchBaseline => 2,
            ECIVoiceParam::eciPitchFluctuation => 3,
            ECIVoiceParam::eciRoughness => 4,
            ECIVoiceParam::eciBreathiness => 5,
            ECIVoiceParam::eciSpeed => 6,
            ECIVoiceParam::eciVolume => 7,
            ECIVoiceParam::eciNumVoiceParams => 8,
        }
    }
}

/// A volume of a user dictionary.
#[derive(Debug, Copy, Clone, PartialEq, Eq, Structural)]
#[allow(non_camel_case_types)]
pub enum ECIDictVolume {
    eciMainDict,
    eciRootDict,
    eciAbbvDict,
    eciMainDictExt,
}

impl ECIDictVolume {
    pub open spec fn spec_value(self) -> i32 {
        match self {
            ECIDictVolume::eciMainDict => 0,
            ECIDictVolume::eciRootDict => 1,
            ECIDictVolume::eciAbbvDict => 2,
            ECIDictVolume::eciMainDictExt => 3,
        }
    }

    /// The numeric code of this value in the engine's interface.
    pub fn value(self) -> (r: i32)
        ensures
            r == self.spec_value(),
    {
        match self {
            ECIDictVolume::eciMainDict => 0,
            ECIDictVolume::eciRootDict => 1,
            ECIDictVolume::eciAbbvDict => 2,
            ECIDictVolume::eciMainDictExt => 3,
        }
    }
}

/// A result code of the dictionary functions.
#[derive(Debug, Copy, Clone, PartialEq, Eq, Structural)]
#[allow(non_camel_case_types)]
pub enum ECIDictError {
    DictNoError,
    DictFileNotFound,
    DictOutOfMemory,
    DictInternalError,
    DictNoEntry,
    DictErrLookUpKey,
    DictAccessError,
}

impl ECIDictError {
    pub open spec fn spec_value(self) -> i32 {
        match self {
            ECIDictError::DictNoError => 0,
            ECIDictError::DictFileNotFound => 1,
            ECIDictError::DictOutOfMemory => 2,
            ECIDictError::DictInternalError => 3,
            ECIDictError::DictNoEntry => 4,
            ECIDictError::DictErrLookUpKey => 5,
            ECIDictError::DictAccessError => 6,
        }
    }

    /// The numeric code of this value in the engine's interface.
    pub fn value(self) -> (r: i32)
        ensures
            r == self.spec_value(),
    {
        match self {
            ECIDictError::DictNoError => 0,
            ECIDictError::DictFileNotFound => 1,
            ECIDictError::DictOutOfMemory => 2,
            ECIDictError::DictInternalError => 3,
            ECIDictError::DictNoEntry => 4,
            ECIDictError::DictErrLookUpKey => 5,
            ECIDictError::DictAccessError => 6,
        }
    }
}

/// A language and dialect of the engine.
#[derive(Debug, Copy, Clone, PartialEq, Eq, Structural)]
#[allow(non_camel_case_types)]
pub enum ECILanguageDialect {
    NODEFINEDCODESET,
    eciGeneralAmericanEnglish,
    eciBritishEnglish,
    eciCastilianSpanish,
    eciMexicanSpanish,
    eciStandardFrench,
    eciCanadianFrench,
    eciStandardGerman,
    eciStandardItalian,
    eciMandarinChinese,
    eciMandarinChinesePinYin,
    eciMandarinChineseUCS,
    eciTaiwaneseMandarin,
    eciTaiwaneseMandarinZhuYin,
    eciTaiwaneseMandarinPinYin,
    eciTaiwaneseMandarinUCS,
    eciBrazilianPortuguese,
    eciStandardJapanese,
    eciStandardJapaneseUCS,
    eciStandardFinnish,
    eciStandardKorean,
}

impl ECILanguageDialect {
    pub open spec fn spec_value(self) -> i32 {
        match self {
            ECILanguageDialect::NODEFINEDCODESET => 0x00000000,
            ECILanguageDialect::eciGeneralAmericanEnglish => 0x00010000,
            ECILanguageDialect::eciBritishEnglish => 0x00010001,
            ECILanguageDialect::eciCastilianSpanish => 0x00020000,
            ECILanguageDialect::eciMexicanSpanish => 0x00020001,
            ECILanguageDialect::eciStandardFrench => 0x00030000,
            ECILanguageDialect::eciCanadianFrench => 0x00030001,
            ECILanguageDialect::eciStandardGerman => 0x00040000,
            ECILanguageDialect::eciStandardItalian => 0x00050000,
            ECILanguageDialect::eciMandarinChinese => 0x00060000,
            ECILanguageDialect::eciMandarinChinesePinYin => 0x00060100,
            ECILanguageDialect::eciMandarinChineseUCS => 0x00060800,
            ECILanguageDialect::eciTaiwaneseMandarin => 0x00060001,
            ECILanguageDialect::eciTaiwaneseMandarinZhuYin => 0x00060101,
            ECILanguageDialect::eciTaiwaneseMandarinPinYin => 0x00060201,
            ECILanguageDialect::eciTaiwaneseMandarinUCS => 0x00060801,
            ECILanguageDialect::eciBrazilianPortuguese => 0x00070000,
            ECILanguageDialect::eciStandardJapanese => 0x00080000,
            ECILanguageDialect::eciStandardJapaneseUCS => 0x00080800,
            ECILanguageDialect::eciStandardFinnish => 0x00090000,
            ECILanguageDialect::eciStandardKorean => 0x000A0000,
        }
    }

    /// The numeric code of this value in the engine's interface.
    pub fn value(self) -> (r: i32)
        ensures
            r == self.spec_value(),
    {
        match self {
            ECILanguageDialect::NODEFINEDCODESET => 0x00000000,
            ECILanguageDialect::eciGeneralAmericanEnglish => 0x00010000,
            ECILanguageDialect::eciBritishEnglish => 0x00010001,
            ECILanguageDialect::eciCastilianSpanish => 0x00020000,
            ECILanguageDialect::eciMexicanSpanish => 0x00020001,
            ECILanguageDialect::eciStandardFrench => 0x00030000,
            ECILanguageDialect::eciCanadianFrench => 0x00030001,
            ECILanguageDialect::eciStandardGerman => 0x00040000,
            ECILanguageDialect::eciStandardItalian => 0x00050000,
            ECILanguageDialect::eciMandarinChinese => 0x00060000,
            ECILanguageDialect::eciMandarinChinesePinYin => 0x00060100,
            ECILanguageDialect::eciMandarinChineseUCS => 0x00060800,
            ECILanguageDialect::eciTaiwaneseMandarin => 0x00060001,
            ECILanguageDialect::eciTaiwaneseMandarinZhuYin => 0x00060101,
            ECILanguageDialect::eciTaiwaneseMandarinPinYin => 0x00060201,
            ECILanguageDialect::eciTaiwaneseMandarinUCS => 0x00060801,
            ECILanguageDialect::eciBrazilianPortuguese => 0x00070000,
            ECILanguageDialect::eciStandardJapanese => 0x00080000,
            ECILanguageDialect::eciStandardJapaneseUCS => 0x00080800,
            ECILanguageDialect::eciStandardFinnish => 0x00090000,
            ECILanguageDialect::eciStandardKorean => 0x000A0000,
        }
    }
}

/// The kind of data that the engine hands to a callback.
#[derive(Debug, Copy, Clone, PartialEq, Eq, Structural)]
#[allow(non_camel_case_types)]
pub enum ECIMessage {
    eciWaveformBuffer,
    eciPhonemeBuffer,
    eciIndexReply,
    eciPhonemeIndexReply,
    eciWordIndexReply,
}

impl ECIMessage {
    pub open spec fn spec_value(self) -> i32 {
        match self {
            ECIMessage::eciWaveformBuffer => 0,
            ECIMessage::eciPhonemeBuffer => 1,
            ECIMessage::eciIndexReply => 2,
            ECIMessage::eciPhonemeIndexReply => 3,
            ECIMessage::eciWordIndexReply => 4,
        }
    }

    /// The numeric code of this value in the engine's interface.
    pub fn value(self) -> (r: i32)
        ensures
            r == self.spec_value(),
    {
        match self {
            ECIMessage::eciWaveformBuffer => 0,
            ECIMessage::eciPhonemeBuffer => 1,
            ECIMessage::eciIndexReply => 2,
            ECIMessage::eciPhonemeIndexReply => 3,
            ECIMessage::eciWordIndexReply => 4,
        }
    }
}

/// The engine's return to a callback: whether the delivered data was consumed.
#[derive(Debug, Copy, Clone, PartialEq, Eq, Structural)]
#[allow(non_camel_case_types)]
pub enum ECICallbackReturn {
    eciDataNotProcessed,
    eciDataProcessed,
    eciDataAbort,
}

impl ECICallbackReturn {
    pub open spec fn spec_value(self) -> i32 {
        match self {
            ECICallbackReturn::eciDataNotProcessed => 0,
            ECICallbackReturn::eciDataProcessed => 1,
            ECICallbackReturn::eciDataAbort => 2,
        }
    }

    /// The numeric code that the engine expects.
    pub fn value(self) -> (r: i32)
        ensures
            r == self.spec_value(),
    {
        match self {
            ECICallbackReturn::eciDataNotProcessed => 0,
            ECICallbackReturn::eciDataProcessed => 1,
            ECICallbackReturn::eciDataAbort => 2,
        }
    }
}

/// The message that the engine's code `v` names, if any.
pub open spec fn spec_message_from_value(v: u32) -> Option<ECIMessage> {
    if v == 0 {
        Some(ECIMessage::eciWaveformBuffer)
    } else if v == 1 {
        Some(ECIMessage::eciPhonemeBuffer)
    } else if v == 2 {
        Some(ECIMessage::eciIndexReply)
    } else if v == 3 {
        Some(ECIMessage::eciPhonemeIndexReply)
    } else if v == 4 {
        Some(ECIMessage::eciWordIndexReply)
    } else {
        None
    }
}

impl ECIMessage {
    /// The message that the engine's code `v` names, if any.
    pub fn from_value(v: u32) -> (r: Option<ECIMessage>)
        ensures
            r == spec_message_from_value(v),
    {
        if v == 0 {
            Some(ECIMessage::eciWaveformBuffer)
        } else if v == 1 {
            Some(ECIMessage::eciPhonemeBuffer)
        } else if v == 2 {
            Some(ECIMessage::eciIndexReply)
        } else if v == 3 {
            Some(ECIMessage::eciPhonemeIndexReply)
        } else if v == 4 {
            Some(ECIMessage::eciWordIndexReply)
        } else {
            None
        }
    }

    /// The code by which clients recognise this message in the shared header:
    /// new audio 3, an index reply 4, phoneme data 0; a phoneme index reply 1 and
    /// a word index reply 2, the two codes left free, so that every message keeps
    /// a code of its own.
    pub open spec fn spec_client_code(self) -> u32 {
        match self {
            ECIMessage::eciWaveformBuffer => 3,
            ECIMessage::eciPhonemeBuffer => 0,
            ECIMessage::eciIndexReply => 4,
            ECIMessage::eciPhonemeIndexReply => 1,
            ECIMessage::eciWordIndexReply => 2,
        }
    }

    /// The code by which clients recognise this message in the shared header.
    pub fn client_code(self) -> (r: u32)
        ensures
            r == self.spec_client_code(),
    {
        match self {
            ECIMessage::eciWaveformBuffer => 3,
            ECIMessage::eciPhonemeBuffer => 0,
            ECIMessage::eciIndexReply => 4,
            ECIMessage::eciPhonemeIndexReply => 1,
            ECIMessage::eciWordIndexReply => 2,
        }
    }
}

} // verus!
