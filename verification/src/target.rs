//! The safe, discriminated form of a detected target, and its two-way
//! marshalling with the driver's wire form.
//!
//! The critical invariant of [`Target`] is that the active variant of its
//! metadata always corresponds to its modulation's technology, and that
//! every length field fits its paired buffer.  Every constructor and the
//! decoder establish the invariant; the encoder requires it.

use vstd::prelude::*;
use crate::error::Error;
use crate::target_info::Barcode;
use crate::target_info::Dep;
use crate::target_info::Felica;
use crate::target_info::Iso14443a;
use crate::target_info::Iso14443b;
use crate::target_info::Iso14443b2ct;
use crate::target_info::Iso14443b2sr;
use crate::target_info::Iso14443bi;
use crate::target_info::Iso14443biClass;
use crate::target_info::Jewel;
use crate::target_info::TargetInfo;
use crate::types::BaudRate;
use crate::types::Modulation;
use crate::types::ModulationType;
use crate::types::baud_rate_of_code;
use crate::types::dep_mode_of_code;
use crate::types::modulation_type_of_code;
use crate::wire::WireBarcode;
use crate::wire::WireDep;
use crate::wire::WireFelica;
use crate::wire::WireIso14443a;
use crate::wire::WireIso14443b;
use crate::wire::WireIso14443b2ct;
use crate::wire::WireIso14443b2sr;
use crate::wire::WireIso14443bi;
use crate::wire::WireIso14443biClass;
use crate::wire::WireJewel;
use crate::wire::WireTarget;
use crate::wire::WireTargetInfo;

verus! {

impl TargetInfo {
    /// The technology that this metadata variant belongs to; never
    /// `Undefined`, since every variant names a concrete technology.
    pub open spec fn technology(self) -> ModulationType {
        match self {
            TargetInfo::Iso14443a(_) => ModulationType::Iso14443a,
            TargetInfo::Felica(_) => ModulationType::Felica,
            TargetInfo::Iso14443b(_) => ModulationType::Iso14443b,
            TargetInfo::Iso14443bi(_) => ModulationType::Iso14443bi,
            TargetInfo::Iso14443b2sr(_) => ModulationType::Iso14443b2sr,
            TargetInfo::Iso14443b2ct(_) => ModulationType::Iso14443b2ct,
            TargetInfo::Jewel(_) => ModulationType::Jewel,
            TargetInfo::Dep(_) => ModulationType::Dep,
            TargetInfo::Barcode(_) => ModulationType::Barcode,
            TargetInfo::Iso14443biClass(_) => ModulationType::Iso14443biClass,
        }
    }
}

/// A detected (or to-be-emulated) target: technology-specific metadata next
/// to the modulation it was, or is to be, activated with.
#[derive(Debug, PartialEq, Eq, Clone, Copy)]
pub struct Target {
    /// Technology-specific activation metadata.
    pub target_info: TargetInfo,
    /// The modulation the metadata belongs to.
    pub modulation: Modulation,
}

impl Target {
    /// The invariant of every target this library hands out: the metadata
    /// variant corresponds to the modulation's technology, and every length
    /// field fits its paired buffer.
    pub open spec fn wf(self) -> bool {
        &&& self.target_info.wf()
        &&& self.target_info.technology() == self.modulation.modulation_type
    }
}

/// What decoding the wire union storage as a given, known technology gives:
/// the matching arm's metadata, or `InvalidArgument` where one of the arm's
/// length fields exceeds the capacity of its paired buffer.  Only the
/// matching arm of the storage is inspected.
pub open spec fn decode_info_spec(w: WireTargetInfo, mt: ModulationType) -> Result<
    TargetInfo,
    Error,
> {
    match mt {
        ModulationType::Iso14443a => if w.iso14443a.uid_len <= 10 && w.iso14443a.ats_len <= 254 {
            Ok(
                TargetInfo::Iso14443a(
                    Iso14443a {
                        atqa: w.iso14443a.atqa,
                        sak: w.iso14443a.sak,
                        uid: w.iso14443a.uid,
                        uid_len: w.iso14443a.uid_len as usize,
                        ats: w.iso14443a.ats,
                        ats_len: w.iso14443a.ats_len as usize,
                    },
                ),
            )
        } else {
            Err(Error::InvalidArgument)
        },
        ModulationType::Felica => Ok(
            TargetInfo::Felica(
                Felica {
                    len: w.felica.len as usize,
                    res_code: w.felica.res_code,
                    id: w.felica.id,
                    pad: w.felica.pad,
                    sys_code: w.felica.sys_code,
                },
            ),
        ),
        ModulationType::Iso14443b => Ok(
            TargetInfo::Iso14443b(
                Iso14443b {
                    pupi: w.iso14443b.pupi,
                    application_data: w.iso14443b.application_data,
                    protocol_info: w.iso14443b.protocol_info,
                    card_identifier: w.iso14443b.card_identifier,
                },
            ),
        ),
        ModulationType::Iso14443bi => if w.iso14443bi.atr_len <= 33 {
            Ok(
                TargetInfo::Iso14443bi(
                    Iso14443bi {
                        div: w.iso14443bi.div,
                        ver_log: w.iso14443bi.ver_log,
                        config: w.iso14443bi.config,
                        atr: w.iso14443bi.atr,
                        atr_len: w.iso14443bi.atr_len as usize,
                    },
                ),
            )
        } else {
            Err(Error::InvalidArgument)
        },
        ModulationType::Iso14443b2sr => Ok(
            TargetInfo::Iso14443b2sr(Iso14443b2sr { uid: w.iso14443b2sr.uid }),
        ),
        ModulationType::Iso14443b2ct => Ok(
            TargetInfo::Iso14443b2ct(
                Iso14443b2ct {
                    uid: w.iso14443b2ct.uid,
                    prod_code: w.iso14443b2ct.prod_code,
                    fab_code: w.iso14443b2ct.fab_code,
                },
            ),
        ),
        ModulationType::Jewel => Ok(
            TargetInfo::Jewel(Jewel { sens_res: w.jewel.sens_res, id: w.jewel.id }),
        ),
        ModulationType::Dep => if w.dep.gb_len <= 48 {
            Ok(
                TargetInfo::Dep(
                    Dep {
                        nfcid3: w.dep.nfcid3,
                        did: w.dep.did,
                        bs: w.dep.bs,
                        br: w.dep.br,
                        to: w.dep.to,
                        pp: w.dep.pp,
                        gb: w.dep.gb,
                        gb_len: w.dep.gb_len as usize,
                        dep_mode: dep_mode_of_code(w.dep.dep_mode),
                    },
                ),
            )
        } else {
            Err(Error::InvalidArgument)
        },
        ModulationType::Barcode => if w.barcode.data_len <= 32 {
            Ok(
                TargetInfo::Barcode(
                    Barcode { data: w.barcode.data, data_len: w.barcode.data_len as usize },
                ),
            )
        } else {
            Err(Error::InvalidArgument)
        },
        ModulationType::Iso14443biClass => Ok(
            TargetInfo::Iso14443biClass(Iso14443biClass { uid: w.iso14443biclass.uid }),
        ),
        ModulationType::Undefined => Err(Error::UndefinedModulationType),
    }
}

/// What decoding a wire target gives: `UndefinedModulationType` where the
/// technology code is not one of the known technologies; otherwise the
/// matching arm decoded as [`decode_info_spec`] says, paired with the
/// decoded modulation.
pub open spec fn decode_spec(w: WireTarget) -> Result<Target, Error> {
    let mt = modulation_type_of_code(w.modulation_type);
    match decode_info_spec(w.info, mt) {
        Ok(info) => Ok(
            Target {
                target_info: info,
                modulation: Modulation {
                    modulation_type: mt,
                    baud_rate: baud_rate_of_code(w.baud_rate),
                },
            },
        ),
        Err(e) => Err(e),
    }
}

/// The wire union storage that encoding metadata fills: the matching arm
/// holds the metadata, every other arm stays zero.
pub open spec fn encode_info_spec(info: TargetInfo) -> WireTargetInfo {
    match info {
        TargetInfo::Iso14443a(i) => WireTargetInfo {
            iso14443a: WireIso14443a {
                atqa: i.atqa,
                sak: i.sak,
                uid_len: i.uid_len as u64,
                uid: i.uid,
                ats_len: i.ats_len as u64,
                ats: i.ats,
            },
            ..WireTargetInfo::zero_spec()
        },
        TargetInfo::Felica(i) => WireTargetInfo {
            felica: WireFelica {
                len: i.len as u64,
                res_code: i.res_code,
                id: i.id,
                pad: i.pad,
                sys_code: i.sys_code,
            },
            ..WireTargetInfo::zero_spec()
        },
        TargetInfo::Iso14443b(i) => WireTargetInfo {
            iso14443b: WireIso14443b {
                pupi: i.pupi,
                application_data: i.application_data,
                protocol_info: i.protocol_info,
                card_identifier: i.card_identifier,
            },
            ..WireTargetInfo::zero_spec()
        },
        TargetInfo::Iso14443bi(i) => WireTargetInfo {
            iso14443bi: WireIso14443bi {
                div: i.div,
                ver_log: i.ver_log,
                config: i.config,
                atr_len: i.atr_len as u64,
                atr: i.atr,
            },
            ..WireTargetInfo::zero_spec()
        },
        TargetInfo::Iso14443b2sr(i) => WireTargetInfo {
            iso14443b2sr: WireIso14443b2sr { uid: i.uid },
            ..WireTargetInfo::zero_spec()
        },
        TargetInfo::Iso14443b2ct(i) => WireTargetInfo {
            iso14443b2ct: WireIso14443b2ct {
                uid: i.uid,
                prod_code: i.prod_code,
                fab_code: i.fab_code,
            },
            ..WireTargetInfo::zero_spec()
        },
        TargetInfo::Jewel(i) => WireTargetInfo {
            jewel: WireJewel { sens_res: i.sens_res, id: i.id },
            ..WireTargetInfo::zero_spec()
        },
        TargetInfo::Dep(i) => WireTargetInfo {
            dep: WireDep {
                nfcid3: i.nfcid3,
                did: i.did,
                bs: i.bs,
                br: i.br,
                to: i.to,
                pp: i.pp,
                gb: i.gb,
                gb_len: i.gb_len as u64,
                dep_mode: i.dep_mode.as_code(),
            },
            ..WireTargetInfo::zero_spec()
        },
        TargetInfo::Barcode(i) => WireTargetInfo {
            barcode: WireBarcode { data_len: i.data_len as u64, data: i.data },
            ..WireTargetInfo::zero_spec()
        },
        TargetInfo::Iso14443biClass(i) => WireTargetInfo {
            iso14443biclass: WireIso14443biClass { uid: i.uid },
            ..WireTargetInfo::zero_spec()
        },
    }
}

/// The wire target that encoding a well-formed target gives.
pub open spec fn encode_spec(t: Target) -> WireTarget {
    WireTarget {
        info: encode_info_spec(t.target_info),
        modulation_type: t.modulation.modulation_type.as_code(),
        baud_rate: t.modulation.baud_rate.as_code(),
    }
}

impl Target {
    /// Decodes the driver's wire form into a safe target.
    ///
    /// Reads the modulation field first and inspects only the matching arm
    /// of the union storage.  Fails with `UndefinedModulationType` where the
    /// technology code is unknown, and with `InvalidArgument` where a length
    /// field of the matching arm exceeds the capacity of its paired buffer.
    /// Every target it returns is well formed.
    pub fn decode(w: &WireTarget) -> (r: Result<Target, Error>)
        ensures
            r == decode_spec(*w),
            r matches Ok(t) ==> t.wf(),
            modulation_type_of_code(w.modulation_type) == ModulationType::Undefined <==> r
                == Result::<Target, Error>::Err(Error::UndefinedModulationType),
    {
        let mt = ModulationType::from_code(w.modulation_type);
        let baud_rate = BaudRate::from_code(w.baud_rate);
        let info: TargetInfo = match mt {
            ModulationType::Iso14443a => {
                if !(w.info.iso14443a.uid_len <= 10 && w.info.iso14443a.ats_len <= 254) {
                    return Err(Error::InvalidArgument);
                }
                TargetInfo::Iso14443a(
                    Iso14443a {
                        atqa: w.info.iso14443a.atqa,
                        sak: w.info.iso14443a.sak,
                        uid: w.info.iso14443a.uid,
                        uid_len: w.info.iso14443a.uid_len as usize,
                        ats: w.info.iso14443a.ats,
                        ats_len: w.info.iso14443a.ats_len as usize,
                    },
                )
            },
            ModulationType::Felica => TargetInfo::Felica(
                Felica {
                    len: w.info.felica.len as usize,
                    res_code: w.info.felica.res_code,
                    id: w.info.felica.id,
                    pad: w.info.felica.pad,
                    sys_code: w.info.felica.sys_code,
                },
            ),
            ModulationType::Iso14443b => TargetInfo::Iso14443b(
                Iso14443b {
                    pupi: w.info.iso14443b.pupi,
                    application_data: w.info.iso14443b.application_data,
                    protocol_info: w.info.iso14443b.protocol_info,
                    card_identifier: w.info.iso14443b.card_identifier,
                },
            ),
            ModulationType::Iso14443bi => {
                if !(w.info.iso14443bi.atr_len <= 33) {
                    return Err(Error::InvalidArgument);
                }
                TargetInfo::Iso14443bi(
                    Iso14443bi {
                        div: w.info.iso14443bi.div,
                        ver_log: w.info.iso14443bi.ver_log,
                        config: w.info.iso14443bi.config,
                        atr: w.info.iso14443bi.atr,
                        atr_len: w.info.iso14443bi.atr_len as usize,
                    },
                )
            },
            ModulationType::Iso14443b2sr => TargetInfo::Iso14443b2sr(
                Iso14443b2sr { uid: w.info.iso14443b2sr.uid },
            ),
            ModulationType::Iso14443b2ct => TargetInfo::Iso14443b2ct(
                Iso14443b2ct {
                    uid: w.info.iso14443b2ct.uid,
                    prod_code: w.info.iso14443b2ct.prod_code,
                    fab_code: w.info.iso14443b2ct.fab_code,
                },
            ),
            ModulationType::Jewel => TargetInfo::Jewel(
                Jewel { sens_res: w.info.jewel.sens_res, id: w.info.jewel.id },
            ),
            ModulationType::Dep => {
                if !(w.info.dep.gb_len <= 48) {
                    return Err(Error::InvalidArgument);
                }
                TargetInfo::Dep(
                    Dep {
                        nfcid3: w.info.dep.nfcid3,
                        did: w.info.dep.did,
                        bs: w.info.dep.bs,
                        br: w.info.dep.br,
                        to: w.info.dep.to,
                        pp: w.info.dep.pp,
                        gb: w.info.dep.gb,
                        gb_len: w.info.dep.gb_len as usize,
                        dep_mode: crate::types::DepMode::from_code(w.info.dep.dep_mode),
                    },
                )
            },
            ModulationType::Barcode => {
                if !(w.info.barcode.data_len <= 32) {
                    return Err(Error::InvalidArgument);
                }
                TargetInfo::Barcode(
                    Barcode {
                        data: w.info.barcode.data,
                        data_len: w.info.barcode.data_len as usize,
                    },
                )
            },
            ModulationType::Iso14443biClass => TargetInfo::Iso14443biClass(
                Iso14443biClass { uid: w.info.iso14443biclass.uid },
            ),
            ModulationType::Undefined => {
                return Err(Error::UndefinedModulationType);
            },
        };
        Ok(Target { target_info: info, modulation: Modulation { modulation_type: mt, baud_rate } })
    }

    /// Encodes a well-formed target into the driver's wire form: the
    /// modulation codes plus the union storage with the matching arm filled
    /// and every other arm zero.
    pub fn encode(&self) -> (w: WireTarget)
        requires
            self.wf(),
        ensures
            w == encode_spec(*self),
    {
        let mut info = WireTargetInfo::zero();
        match &self.target_info {
            TargetInfo::Iso14443a(i) => {
                info.iso14443a = WireIso14443a {
                    atqa: i.atqa,
                    sak: i.sak,
                    uid_len: i.uid_len as u64,
                    uid: i.uid,
                    ats_len: i.ats_len as u64,
                    ats: i.ats,
                };
            },
            TargetInfo::Felica(i) => {
                info.felica = WireFelica {
                    len: i.len as u64,
                    res_code: i.res_code,
                    id: i.id,
                    pad: i.pad,
                    sys_code: i.sys_code,
                };
            },
            TargetInfo::Iso14443b(i) => {
                info.iso14443b = WireIso14443b {
                    pupi: i.pupi,
                    application_data: i.application_data,
                    protocol_info: i.protocol_info,
                    card_identifier: i.card_identifier,
                };
            },
            TargetInfo::Iso14443bi(i) => {
                info.iso14443bi = WireIso14443bi {
                    div: i.div,
                    ver_log: i.ver_log,
                    config: i.config,
                    atr_len: i.atr_len as u64,
                    atr: i.atr,
                };
            },
            TargetInfo::Iso14443b2sr(i) => {
                info.iso14443b2sr = WireIso14443b2sr { uid: i.uid };
            },
            TargetInfo::Iso14443b2ct(i) => {
                info.iso14443b2ct = WireIso14443b2ct {
                    uid: i.uid,
                    prod_code: i.prod_code,
                    fab_code: i.fab_code,
                };
            },
            TargetInfo::Jewel(i) => {
                info.jewel = WireJewel { sens_res: i.sens_res, id: i.id };
            },
            TargetInfo::Dep(i) => {
                info.dep = WireDep {
                    nfcid3: i.nfcid3,
                    did: i.did,
                    bs: i.bs,
                    br: i.br,
                    to: i.to,
                    pp: i.pp,
                    gb: i.gb,
                    gb_len: i.gb_len as u64,
                    dep_mode: i.dep_mode.to_code(),
                };
            },
            TargetInfo::Barcode(i) => {
                info.barcode = WireBarcode { data_len: i.data_len as u64, data: i.data };
            },
            TargetInfo::Iso14443biClass(i) => {
                info.iso14443biclass = WireIso14443biClass { uid: i.uid };
            },
        }
        WireTarget {
            info,
            modulation_type: self.modulation.modulation_type.to_code(),
            baud_rate: self.modulation.baud_rate.to_code(),
        }
    }
}

impl Target {
    /// Decides the well-formedness invariant at run time, for callers that
    /// assembled a target by hand: the metadata variant must correspond to
    /// the modulation's technology and every length field must fit its
    /// paired buffer.
    pub fn is_well_formed(&self) -> (r: bool)
        ensures
            r == self.wf(),
    {
        let technology_matches = match &self.target_info {
            TargetInfo::Iso14443a(_) => self.modulation.modulation_type
                == ModulationType::Iso14443a,
            TargetInfo::Felica(_) => self.modulation.modulation_type == ModulationType::Felica,
            TargetInfo::Iso14443b(_) => self.modulation.modulation_type
                == ModulationType::Iso14443b,
            TargetInfo::Iso14443bi(_) => self.modulation.modulation_type
                == ModulationType::Iso14443bi,
            TargetInfo::Iso14443b2sr(_) => self.modulation.modulation_type
                == ModulationType::Iso14443b2sr,
            TargetInfo::Iso14443b2ct(_) => self.modulation.modulation_type
                == ModulationType::Iso14443b2ct,
            TargetInfo::Jewel(_) => self.modulation.modulation_type == ModulationType::Jewel,
            TargetInfo::Dep(_) => self.modulation.modulation_type == ModulationType::Dep,
            TargetInfo::Barcode(_) => self.modulation.modulation_type == ModulationType::Barcode,
            TargetInfo::Iso14443biClass(_) => self.modulation.modulation_type
                == ModulationType::Iso14443biClass,
        };
        let lengths_fit = match &self.target_info {
            TargetInfo::Iso14443a(i) => i.uid_len <= 10 && i.ats_len <= 254,
            TargetInfo::Iso14443bi(i) => i.atr_len <= 33,
            TargetInfo::Dep(i) => i.gb_len <= 48,
            TargetInfo::Barcode(i) => i.data_len <= 32,
            _ => true,
        };
        technology_matches && lengths_fit
    }

    /// The conventional default baud rate of a technology: FeLiCa links
    /// start at 212 kbps, every other technology at 106 kbps.
    pub open spec fn default_baud_rate(mt: ModulationType) -> BaudRate {
        if mt == ModulationType::Felica {
            BaudRate::Baud212
        } else {
            BaudRate::Baud106
        }
    }

    /// A zero-filled ISO/IEC 14443-A target at the technology's default
    /// baud rate, used as a scratch value before a decoding call fills it.
    pub fn new_iso14443a() -> (r: Target)
        ensures
            r == (Target {
                target_info: TargetInfo::zero_iso14443a(),
                modulation: Modulation {
                    modulation_type: ModulationType::Iso14443a,
                    baud_rate: BaudRate::Baud106,
                },
            }),
            r.wf(),
    {
        Target {
            target_info: TargetInfo::new_iso14443a(),
            modulation: Modulation {
                modulation_type: ModulationType::Iso14443a,
                baud_rate: BaudRate::Baud106,
            },
        }
    }

    /// A zero-filled FeLiCa target at the technology's default baud rate.
    pub fn new_felica() -> (r: Target)
        ensures
            r == (Target {
                target_info: TargetInfo::zero_felica(),
                modulation: Modulation {
                    modulation_type: ModulationType::Felica,
                    baud_rate: BaudRate::Baud212,
                },
            }),
            r.wf(),
    {
        Target {
            target_info: TargetInfo::new_felica(),
            modulation: Modulation {
                modulation_type: ModulationType::Felica,
                baud_rate: BaudRate::Baud212,
            },
        }
    }

    /// A zero-filled ISO/IEC 14443-B target at the default baud rate.
    pub fn new_iso14443b() -> (r: Target)
        ensures
            r == (Target {
                target_info: TargetInfo::zero_iso14443b(),
                modulation: Modulation {
                    modulation_type: ModulationType::Iso14443b,
                    baud_rate: BaudRate::Baud106,
                },
            }),
            r.wf(),
    {
        Target {
            target_info: TargetInfo::new_iso14443b(),
            modulation: Modulation {
                modulation_type: ModulationType::Iso14443b,
                baud_rate: BaudRate::Baud106,
            },
        }
    }

    /// A zero-filled ISO/IEC 14443-B' target at the default baud rate.
    pub fn new_iso14443bi() -> (r: Target)
        ensures
            r == (Target {
                target_info: TargetInfo::zero_iso14443bi(),
                modulation: Modulation {
                    modulation_type: ModulationType::Iso14443bi,
                    baud_rate: BaudRate::Baud106,
                },
            }),
            r.wf(),
    {
        Target {
            target_info: TargetInfo::new_iso14443bi(),
            modulation: Modulation {
                modulation_type: ModulationType::Iso14443bi,
                baud_rate: BaudRate::Baud106,
            },
        }
    }

    /// A zero-filled ISO/IEC 14443-2B ST SRx target at the default baud rate.
    pub fn new_iso14443b2sr() -> (r: Target)
        ensures
            r == (Target {
                target_info: TargetInfo::zero_iso14443b2sr(),
                modulation: Modulation {
                    modulation_type: ModulationType::Iso14443b2sr,
                    baud_rate: BaudRate::Baud106,
                },
            }),
            r.wf(),
    {
        Target {
            target_info: TargetInfo::new_iso14443b2sr(),
            modulation: Modulation {
                modulation_type: ModulationType::Iso14443b2sr,
                baud_rate: BaudRate::Baud106,
            },
        }
    }

    /// A zero-filled ISO/IEC 14443-2B ASK CTx target at the default baud rate.
    pub fn new_iso14443b2ct() -> (r: Target)
        ensures
            r == (Target {
                target_info: TargetInfo::zero_iso14443b2ct(),
                modulation: Modulation {
                    modulation_type: ModulationType::Iso14443b2ct,
                    baud_rate: BaudRate::Baud106,
                },
            }),
            r.wf(),
    {
        Target {
            target_info: TargetInfo::new_iso14443b2ct(),
            modulation: Modulation {
                modulation_type: ModulationType::Iso14443b2ct,
                baud_rate: BaudRate::Baud106,
            },
        }
    }

    /// A zero-filled Jewel target at the default baud rate.
    pub fn new_jewel() -> (r: Target)
        ensures
            r == (Target {
                target_info: TargetInfo::zero_jewel(),
                modulation: Modulation {
                    modulation_type: ModulationType::Jewel,
                    baud_rate: BaudRate::Baud106,
                },
            }),
            r.wf(),
    {
        Target {
            target_info: TargetInfo::new_jewel(),
            modulation: Modulation {
                modulation_type: ModulationType::Jewel,
                baud_rate: BaudRate::Baud106,
            },
        }
    }

    /// A zero-filled D.E.P. target at the default baud rate.
    pub fn new_dep() -> (r: Target)
        ensures
            r == (Target {
                target_info: TargetInfo::zero_dep(),
                modulation: Modulation {
                    modulation_type: ModulationType::Dep,
                    baud_rate: BaudRate::Baud106,
                },
            }),
            r.wf(),
    {
        Target {
            target_info: TargetInfo::new_dep(),
            modulation: Modulation {
                modulation_type: ModulationType::Dep,
                baud_rate: BaudRate::Baud106,
            },
        }
    }

    /// A zero-filled barcode target at the default baud rate.
    pub fn new_barcode() -> (r: Target)
        ensures
            r == (Target {
                target_info: TargetInfo::zero_barcode(),
                modulation: Modulation {
                    modulation_type: ModulationType::Barcode,
                    baud_rate: BaudRate::Baud106,
                },
            }),
            r.wf(),
    {
        Target {
            target_info: TargetInfo::new_barcode(),
            modulation: Modulation {
                modulation_type: ModulationType::Barcode,
                baud_rate: BaudRate::Baud106,
            },
        }
    }

    /// A zero-filled HID iClass target at the default baud rate.
    pub fn new_iso14443biclass() -> (r: Target)
        ensures
            r == (Target {
                target_info: TargetInfo::zero_iso14443biclass(),
                modulation: Modulation {
                    modulation_type: ModulationType::Iso14443biClass,
                    baud_rate: BaudRate::Baud106,
                },
            }),
            r.wf(),
    {
        Target {
            target_info: TargetInfo::new_iso14443biclass(),
            modulation: Modulation {
                modulation_type: ModulationType::Iso14443biClass,
                baud_rate: BaudRate::Baud106,
            },
        }
    }

    /// The zero-filled metadata of a technology; `Undefined` has none.
    pub open spec fn zero_info_of(mt: ModulationType) -> TargetInfo
        recommends
            mt != ModulationType::Undefined,
    {
        match mt {
            ModulationType::Iso14443a => TargetInfo::zero_iso14443a(),
            ModulationType::Jewel => TargetInfo::zero_jewel(),
            ModulationType::Iso14443b => TargetInfo::zero_iso14443b(),
            ModulationType::Iso14443bi => TargetInfo::zero_iso14443bi(),
            ModulationType::Iso14443b2sr => TargetInfo::zero_iso14443b2sr(),
            ModulationType::Iso14443b2ct => TargetInfo::zero_iso14443b2ct(),
            ModulationType::Felica => TargetInfo::zero_felica(),
            ModulationType::Dep => TargetInfo::zero_dep(),
            ModulationType::Barcode => TargetInfo::zero_barcode(),
            ModulationType::Iso14443biClass => TargetInfo::zero_iso14443biclass(),
            ModulationType::Undefined => TargetInfo::zero_iso14443a(),
        }
    }

    /// A zero-filled scratch target for a caller-chosen modulation.
    ///
    /// Succeeds exactly on modulations whose technology is defined, pairing
    /// the modulation with its technology's zero metadata; an `Undefined`
    /// technology is rejected, never defaulted.
    pub fn try_from_modulation(m: &Modulation) -> (r: Result<Target, Error>)
        ensures
            m.modulation_type == ModulationType::Undefined ==> r == Result::<
                Target,
                Error,
            >::Err(Error::UndefinedModulationType),
            m.modulation_type != ModulationType::Undefined ==> r == Result::<
                Target,
                Error,
            >::Ok(Target { target_info: Target::zero_info_of(m.modulation_type), modulation: *m }),
            r matches Ok(t) ==> t.wf(),
    {
        let info = match m.modulation_type {
            ModulationType::Iso14443a => TargetInfo::new_iso14443a(),
            ModulationType::Jewel => TargetInfo::new_jewel(),
            ModulationType::Iso14443b => TargetInfo::new_iso14443b(),
            ModulationType::Iso14443bi => TargetInfo::new_iso14443bi(),
            ModulationType::Iso14443b2sr => TargetInfo::new_iso14443b2sr(),
            ModulationType::Iso14443b2ct => TargetInfo::new_iso14443b2ct(),
            ModulationType::Felica => TargetInfo::new_felica(),
            ModulationType::Dep => TargetInfo::new_dep(),
            ModulationType::Barcode => TargetInfo::new_barcode(),
            ModulationType::Iso14443biClass => TargetInfo::new_iso14443biclass(),
            ModulationType::Undefined => {
                return Err(Error::UndefinedModulationType);
            },
        };
        Ok(Target { target_info: info, modulation: *m })
    }
}

/// Decoding inverts encoding: every well-formed target survives the trip
/// through the wire form unchanged, and in particular the decoded variant
/// again matches the decoded modulation's technology.
pub proof fn lemma_decode_encode_round_trip(t: Target)
    requires
        t.wf(),
    ensures
        decode_spec(encode_spec(t)) == Result::<Target, Error>::Ok(t),
{
    crate::types::lemma_modulation_type_code_round_trip(t.modulation.modulation_type);
    crate::types::lemma_baud_rate_code_round_trip(t.modulation.baud_rate);
    match t.target_info {
        TargetInfo::Dep(i) => {
            crate::types::lemma_dep_mode_code_round_trip(i.dep_mode);
        },
        _ => {},
    }
}

} // verus!
