//! The rows of the store, one type for each kind of flat file, and the
//! record of an applied update.

use crate::fcc_date::Date;
use crate::record::{
    cells_of, date_cell, date_value, int_cell, int_value, lemma_row_fails, lemma_row_maps,
    read_optional_date, read_optional_int, read_text, read_unsigned, text_cell, text_value,
    texts_of, unsigned_cell, unsigned_value, RecordKind, RowError, SqlCell, SqlValue,
};
use crate::timestamp::Timestamp;
use vstd::prelude::*;

verus! {

/// One applied update, as the journal keeps it. `date` is the time at which
/// the source last modified the dump that was applied, not the time of the
/// load.
#[derive(Clone, Copy, Debug, PartialEq, Eq, Structural)]
pub struct Update {
    pub id: u32,
    pub daily: bool,
    pub weekly: bool,
    pub date: Timestamp,
}

/// One line of `AM.dat`: the amateur-service data of a licence.
#[allow(non_snake_case)]
#[derive(Clone, Debug, PartialEq, Eq)]
pub struct Amateur {
    pub RecordType: String,
    pub UniqueSystemIdentifier: u32,
    pub UlsFileNumber: String,
    pub EBFNumber: String,
    pub CallSign: String,
    pub OperatorClass: String,
    pub GroupCode: String,
    pub RegionCode: String,
    pub TrusteeCallSign: String,
    pub TrusteeIndicator: String,
    pub PhysicianCertification: String,
    pub VESignature: String,
    pub SystematicCallSignChange: String,
    pub VanityCallSignChange: String,
    pub VanityRelationship: String,
    pub PreviousCallSign: String,
    pub PreviousOperatorClass: String,
    pub TrusteeName: String,
}

impl Amateur {
    /// The value that the row binds at the column of index `j`.
    pub open spec fn cell_at(&self, j: int) -> SqlCell {
        if j == 0 {
            text_cell(self.RecordType)
        } else if j == 1 {
            unsigned_cell(self.UniqueSystemIdentifier)
        } else if j == 2 {
            text_cell(self.UlsFileNumber)
        } else if j == 3 {
            text_cell(self.EBFNumber)
        } else if j == 4 {
            text_cell(self.CallSign)
        } else if j == 5 {
            text_cell(self.OperatorClass)
        } else if j == 6 {
            text_cell(self.GroupCode)
        } else if j == 7 {
            text_cell(self.RegionCode)
        } else if j == 8 {
            text_cell(self.TrusteeCallSign)
        } else if j == 9 {
            text_cell(self.TrusteeIndicator)
        } else if j == 10 {
            text_cell(self.PhysicianCertification)
        } else if j == 11 {
            text_cell(self.VESignature)
        } else if j == 12 {
            text_cell(self.SystematicCallSignChange)
        } else if j == 13 {
            text_cell(self.VanityCallSignChange)
        } else if j == 14 {
            text_cell(self.VanityRelationship)
        } else if j == 15 {
            text_cell(self.PreviousCallSign)
        } else if j == 16 {
            text_cell(self.PreviousOperatorClass)
        } else {
            text_cell(self.TrusteeName)
        }
    }

    /// The values that the row binds, in the order of the table's columns.
    pub open spec fn cells(&self) -> Seq<SqlCell> {
        Seq::new(18, |j: int| self.cell_at(j))
    }

    /// Reads one line, field by field in the order of the columns. The line
    /// must have 18 fields, and each must hold a value of its column's kind.
    pub fn from_fields(fields: &Vec<String>) -> (r: Result<Amateur, RowError>)
        ensures
            match r {
                Ok(rec) => RecordKind::Amateur.row(texts_of(fields@)) == Ok::<Seq<SqlCell>, RowError>(
                    rec.cells(),
                ),
                Err(e) => RecordKind::Amateur.row(texts_of(fields@)) == Err::<Seq<SqlCell>, RowError>(e),
            },
    {
        if fields.len() != 18 {
            return Err(RowError::ColumnCount { found: fields.len() });
        }
        let ghost texts = texts_of(fields@);
        let unique_system_identifier = match read_unsigned(fields, 1) {
            Ok(v) => v,
            Err(e) => {
                proof {
                    lemma_row_fails(RecordKind::Amateur, texts, 1);
                }
                return Err(e);
            },
        };
        let rec = Amateur {
            RecordType: read_text(fields, 0),
            UniqueSystemIdentifier: unique_system_identifier,
            UlsFileNumber: read_text(fields, 2),
            EBFNumber: read_text(fields, 3),
            CallSign: read_text(fields, 4),
            OperatorClass: read_text(fields, 5),
            GroupCode: read_text(fields, 6),
            RegionCode: read_text(fields, 7),
            TrusteeCallSign: read_text(fields, 8),
            TrusteeIndicator: read_text(fields, 9),
            PhysicianCertification: read_text(fields, 10),
            VESignature: read_text(fields, 11),
            SystematicCallSignChange: read_text(fields, 12),
            VanityCallSignChange: read_text(fields, 13),
            VanityRelationship: read_text(fields, 14),
            PreviousCallSign: read_text(fields, 15),
            PreviousOperatorClass: read_text(fields, 16),
            TrusteeName: read_text(fields, 17),
        };
        proof {
            lemma_row_maps(RecordKind::Amateur, texts, rec.cells());
        }
        Ok(rec)
    }

    /// The values that the row binds, in the order of the table's columns.
    pub fn values(&self) -> (v: Vec<SqlValue>)
        ensures
            cells_of(v@) == self.cells(),
    {
        let mut v: Vec<SqlValue> = Vec::new();
        v.push(text_value(&self.RecordType));
        v.push(unsigned_value(self.UniqueSystemIdentifier));
        v.push(text_value(&self.UlsFileNumber));
        v.push(text_value(&self.EBFNumber));
        v.push(text_value(&self.CallSign));
        v.push(text_value(&self.OperatorClass));
        v.push(text_value(&self.GroupCode));
        v.push(text_value(&self.RegionCode));
        v.push(text_value(&self.TrusteeCallSign));
        v.push(text_value(&self.TrusteeIndicator));
        v.push(text_value(&self.PhysicianCertification));
        v.push(text_value(&self.VESignature));
        v.push(text_value(&self.SystematicCallSignChange));
        v.push(text_value(&self.VanityCallSignChange));
        v.push(text_value(&self.VanityRelationship));
        v.push(text_value(&self.PreviousCallSign));
        v.push(text_value(&self.PreviousOperatorClass));
        v.push(text_value(&self.TrusteeName));
        assert(cells_of(v@) =~= self.cells());
        v
    }
}

/// One line of `CO.dat`: a comment on a licence.
#[allow(non_snake_case)]
#[derive(Clone, Debug, PartialEq, Eq)]
pub struct Comment {
    pub RecordType: String,
    pub UniqueSystemIdentifier: String,
    pub UlsFileNumber: String,
    pub CallSign: String,
    pub CommentDate: Option<Date>,
    pub Description: String,
    pub StatusCode: String,
    pub StatusDate: Option<Date>,
}

impl Comment {
    /// The value that the row binds at the column of index `j`.
    pub open spec fn cell_at(&self, j: int) -> SqlCell {
        if j == 0 {
            text_cell(self.RecordType)
        } else if j == 1 {
            text_cell(self.UniqueSystemIdentifier)
        } else if j == 2 {
            text_cell(self.UlsFileNumber)
        } else if j == 3 {
            text_cell(self.CallSign)
        } else if j == 4 {
            date_cell(self.CommentDate)
        } else if j == 5 {
            text_cell(self.Description)
        } else if j == 6 {
            text_cell(self.StatusCode)
        } else {
            date_cell(self.StatusDate)
        }
    }

    /// The values that the row binds, in the order of the table's columns.
    pub open spec fn cells(&self) -> Seq<SqlCell> {
        Seq::new(8, |j: int| self.cell_at(j))
    }

    /// Reads one line, field by field in the order of the columns. The line
    /// must have 8 fields, and each must hold a value of its column's kind.
    pub fn from_fields(fields: &Vec<String>) -> (r: Result<Comment, RowError>)
        ensures
            match r {
                Ok(rec) => RecordKind::Comment.row(texts_of(fields@)) == Ok::<Seq<SqlCell>, RowError>(
                    rec.cells(),
                ),
                Err(e) => RecordKind::Comment.row(texts_of(fields@)) == Err::<Seq<SqlCell>, RowError>(e),
            },
    {
        if fields.len() != 8 {
            return Err(RowError::ColumnCount { found: fields.len() });
        }
        let ghost texts = texts_of(fields@);
        let comment_date = match read_optional_date(fields, 4) {
            Ok(v) => v,
            Err(e) => {
                proof {
                    lemma_row_fails(RecordKind::Comment, texts, 4);
                }
                return Err(e);
            },
        };
        let status_date = match read_optional_date(fields, 7) {
            Ok(v) => v,
            Err(e) => {
                proof {
                    lemma_row_fails(RecordKind::Comment, texts, 7);
                }
                return Err(e);
            },
        };
        let rec = Comment {
            RecordType: read_text(fields, 0),
            UniqueSystemIdentifier: read_text(fields, 1),
            UlsFileNumber: read_text(fields, 2),
            CallSign: read_text(fields, 3),
            CommentDate: comment_date,
            Description: read_text(fields, 5),
            StatusCode: read_text(fields, 6),
            StatusDate: status_date,
        };
        proof {
            lemma_row_maps(RecordKind::Comment, texts, rec.cells());
        }
        Ok(rec)
    }

    /// The values that the row binds, in the order of the table's columns.
    pub fn values(&self) -> (v: Vec<SqlValue>)
        ensures
            cells_of(v@) == self.cells(),
    {
        let mut v: Vec<SqlValue> = Vec::new();
        v.push(text_value(&self.RecordType));
        v.push(text_value(&self.UniqueSystemIdentifier));
        v.push(text_value(&self.UlsFileNumber));
        v.push(text_value(&self.CallSign));
        v.push(date_value(self.CommentDate));
        v.push(text_value(&self.Description));
        v.push(text_value(&self.StatusCode));
        v.push(date_value(self.StatusDate));
        assert(cells_of(v@) =~= self.cells());
        v
    }
}

/// One line of `EN.dat`: a person or body named on a licence.
#[allow(non_snake_case)]
#[derive(Clone, Debug, PartialEq, Eq)]
pub struct Entity {
    pub RecordType: String,
    pub UniqueSystemIdentifier: u32,
    pub UlsFileNumber: String,
    pub EBFNumber: String,
    pub CallSign: String,
    pub EntityType: String,
    pub LicenseeId: String,
    pub EntityName: String,
    pub FirstName: String,
    pub MiddleInitial: String,
    pub LastName: String,
    pub Suffix: String,
    pub Phone: String,
    pub Fax: String,
    pub Email: String,
    pub StreetAddress: String,
    pub City: String,
    pub State: String,
    pub ZipCode: String,
    pub POBox: String,
    pub AttentionLine: String,
    pub SGIN: String,
    pub FRN: String,
    pub ApplicantTypeCode: String,
    pub ApplicantTypeCodeOther: String,
    pub StatusCode: String,
    pub StatusDate: Option<Date>,
    pub ThreePointSevenGhzLicenseType: String,
    pub LinkedUniqueSystemIdentifier: String,
    pub LinkedCallsign: String,
}

impl Entity {
    /// The value that the row binds at the column of index `j`.
    pub open spec fn cell_at(&self, j: int) -> SqlCell {
        if j == 0 {
            text_cell(self.RecordType)
        } else if j == 1 {
            unsigned_cell(self.UniqueSystemIdentifier)
        } else if j == 2 {
            text_cell(self.UlsFileNumber)
        } else if j == 3 {
            text_cell(self.EBFNumber)
        } else if j == 4 {
            text_cell(self.CallSign)
        } else if j == 5 {
            text_cell(self.EntityType)
        } else if j == 6 {
            text_cell(self.LicenseeId)
        } else if j == 7 {
            text_cell(self.EntityName)
        } else if j == 8 {
            text_cell(self.FirstName)
        } else if j == 9 {
            text_cell(self.MiddleInitial)
        } else if j == 10 {
            text_cell(self.LastName)
        } else if j == 11 {
            text_cell(self.Suffix)
        } else if j == 12 {
            text_cell(self.Phone)
        } else if j == 13 {
            text_cell(self.Fax)
        } else if j == 14 {
            text_cell(self.Email)
        } else if j == 15 {
            text_cell(self.StreetAddress)
        } else if j == 16 {
            text_cell(self.City)
        } else if j == 17 {
            text_cell(self.State)
        } else if j == 18 {
            text_cell(self.ZipCode)
        } else if j == 19 {
            text_cell(self.POBox)
        } else if j == 20 {
            text_cell(self.AttentionLine)
        } else if j == 21 {
            text_cell(self.SGIN)
        } else if j == 22 {
            text_cell(self.FRN)
        } else if j == 23 {
            text_cell(self.ApplicantTypeCode)
        } else if j == 24 {
            text_cell(self.ApplicantTypeCodeOther)
        } else if j == 25 {
            text_cell(self.StatusCode)
        } else if j == 26 {
            date_cell(self.StatusDate)
        } else if j == 27 {
            text_cell(self.ThreePointSevenGhzLicenseType)
        } else if j == 28 {
            text_cell(self.LinkedUniqueSystemIdentifier)
        } else {
            text_cell(self.LinkedCallsign)
        }
    }

    /// The values that the row binds, in the order of the table's columns.
    pub open spec fn cells(&self) -> Seq<SqlCell> {
        Seq::new(30, |j: int| self.cell_at(j))
    }

    /// Reads one line, field by field in the order of the columns. The line
    /// must have 30 fields, and each must hold a value of its column's kind.
    pub fn from_fields(fields: &Vec<String>) -> (r: Result<Entity, RowError>)
        ensures
            match r {
                Ok(rec) => RecordKind::Entity.row(texts_of(fields@)) == Ok::<Seq<SqlCell>, RowError>(
                    rec.cells(),
                ),
                Err(e) => RecordKind::Entity.row(texts_of(fields@)) == Err::<Seq<SqlCell>, RowError>(e),
            },
    {
        if fields.len() != 30 {
            return Err(RowError::ColumnCount { found: fields.len() });
        }
        let ghost texts = texts_of(fields@);
        let unique_system_identifier = match read_unsigned(fields, 1) {
            Ok(v) => v,
            Err(e) => {
                proof {
                    lemma_row_fails(RecordKind::Entity, texts, 1);
                }
                return Err(e);
            },
        };
        let status_date = match read_optional_date(fields, 26) {
            Ok(v) => v,
            Err(e) => {
                proof {
                    lemma_row_fails(RecordKind::Entity, texts, 26);
                }
                return Err(e);
            },
        };
        let rec = Entity {
            RecordType: read_text(fields, 0),
            UniqueSystemIdentifier: unique_system_identifier,
            UlsFileNumber: read_text(fields, 2),
            EBFNumber: read_text(fields, 3),
            CallSign: read_text(fields, 4),
            EntityType: read_text(fields, 5),
            LicenseeId: read_text(fields, 6),
            EntityName: read_text(fields, 7),
            FirstName: read_text(fields, 8),
            MiddleInitial: read_text(fields, 9),
            LastName: read_text(fields, 10),
            Suffix: read_text(fields, 11),
            Phone: read_text(fields, 12),
            Fax: read_text(fields, 13),
            Email: read_text(fields, 14),
            StreetAddress: read_text(fields, 15),
            City: read_text(fields, 16),
            State: read_text(fields, 17),
            ZipCode: read_text(fields, 18),
            POBox: read_text(fields, 19),
            AttentionLine: read_text(fields, 20),
            SGIN: read_text(fields, 21),
            FRN: read_text(fields, 22),
            ApplicantTypeCode: read_text(fields, 23),
            ApplicantTypeCodeOther: read_text(fields, 24),
            StatusCode: read_text(fields, 25),
            StatusDate: status_date,
            ThreePointSevenGhzLicenseType: read_text(fields, 27),
            LinkedUniqueSystemIdentifier: read_text(fields, 28),
            LinkedCallsign: read_text(fields, 29),
        };
        proof {
            lemma_row_maps(RecordKind::Entity, texts, rec.cells());
        }
        Ok(rec)
    }

    /// The values that the row binds, in the order of the table's columns.
    pub fn values(&self) -> (v: Vec<SqlValue>)
        ensures
            cells_of(v@) == self.cells(),
    {
        let mut v: Vec<SqlValue> = Vec::new();
        v.push(text_value(&self.RecordType));
        v.push(unsigned_value(self.UniqueSystemIdentifier));
        v.push(text_value(&self.UlsFileNumber));
        v.push(text_value(&self.EBFNumber));
        v.push(text_value(&self.CallSign));
        v.push(text_value(&self.EntityType));
        v.push(text_value(&self.LicenseeId));
        v.push(text_value(&self.EntityName));
        v.push(text_value(&self.FirstName));
        v.push(text_value(&self.MiddleInitial));
        v.push(text_value(&self.LastName));
        v.push(text_value(&self.Suffix));
        v.push(text_value(&self.Phone));
        v.push(text_value(&self.Fax));
        v.push(text_value(&self.Email));
        v.push(text_value(&self.StreetAddress));
        v.push(text_value(&self.City));
        v.push(text_value(&self.State));
        v.push(text_value(&self.ZipCode));
        v.push(text_value(&self.POBox));
        v.push(text_value(&self.AttentionLine));
        v.push(text_value(&self.SGIN));
        v.push(text_value(&self.FRN));
        v.push(text_value(&self.ApplicantTypeCode));
        v.push(text_value(&self.ApplicantTypeCodeOther));
        v.push(text_value(&self.StatusCode));
        v.push(date_value(self.StatusDate));
        v.push(text_value(&self.ThreePointSevenGhzLicenseType));
        v.push(text_value(&self.LinkedUniqueSystemIdentifier));
        v.push(text_value(&self.LinkedCallsign));
        assert(cells_of(v@) =~= self.cells());
        v
    }
}

/// One line of `HD.dat`: the head data of a licence.
#[allow(non_snake_case)]
#[derive(Clone, Debug, PartialEq, Eq)]
pub struct Header {
    pub RecordType: String,
    pub UniqueSystemIdentifier: u32,
    pub UlsFileNumber: String,
    pub EBFNumber: String,
    pub CallSign: String,
    pub LicenseStatus: String,
    pub RadioServiceCode: String,
    pub GrantDate: Option<Date>,
    pub ExpiredDate: Option<Date>,
    pub CancellationDate: Option<Date>,
    pub EligibilityRuleNumber: String,
    pub Reserved: String,
    pub Alien: String,
    pub AlienGovernment: String,
    pub AlienCorporation: String,
    pub AlienOfficers: String,
    pub AlienControl: String,
    pub Revoked: String,
    pub Convicted: String,
    pub Adjudged: String,
    pub Reserved2: String,
    pub CommonCarrier: String,
    pub NonCommonCarrier: String,
    pub PrivateComm: String,
    pub Fixed: String,
    pub Mobile: String,
    pub Radiolocation: String,
    pub Sattelite: String,
    pub DevelopmentalOrSta: String,
    pub InterconnectedService: String,
    pub CertifierFirstName: String,
    pub CertifierMiddleInitial: String,
    pub CertifierLastName: String,
    pub CertifierSuffix: String,
    pub CertifierTitle: String,
    pub Female: String,
    pub BlackOrAfricanAmerican: String,
    pub NativeAmerican: String,
    pub Hawaiian: String,
    pub Asian: String,
    pub White: String,
    pub Hispanic: String,
    pub EffectiveDate: Option<Date>,
    pub LastActionDate: Option<Date>,
    pub AuctionId: Option<i32>,
    pub BroadcastServicesRegulatoryStatus: String,
    pub BandManagerRegulatoryStatus: String,
    pub BroadcastServicesTypeOfRadioService: String,
    pub AlienRuling: String,
    pub LicenseeNameChange: String,
    pub WhitespaceIndicator: String,
    pub OperationRequirementChoice: String,
    pub OperationRequirementAnswer: String,
    pub DiscontinuationOfService: String,
    pub RegulatoryCompliance: String,
    pub EligibilityCertification900Mhz: String,
    pub TransitionPlanCertification900Mhz: String,
    pub ReturnSpectrumCertification900Mhz: String,
    pub PaymentCertification900Mhz: String,
}

impl Header {
    /// The value that the row binds at the column of index `j`.
    pub open spec fn cell_at(&self, j: int) -> SqlCell {
        if j == 0 {
            text_cell(self.RecordType)
        } else if j == 1 {
            unsigned_cell(self.UniqueSystemIdentifier)
        } else if j == 2 {
            text_cell(self.UlsFileNumber)
        } else if j == 3 {
            text_cell(self.EBFNumber)
        } else if j == 4 {
            text_cell(self.CallSign)
        } else if j == 5 {
            text_cell(self.LicenseStatus)
        } else if j == 6 {
            text_cell(self.RadioServiceCode)
        } else if j == 7 {
            date_cell(self.GrantDate)
        } else if j == 8 {
            date_cell(self.ExpiredDate)
        } else if j == 9 {
            date_cell(self.CancellationDate)
        } else if j == 10 {
            text_cell(self.EligibilityRuleNumber)
        } else if j == 11 {
            text_cell(self.Reserved)
        } else if j == 12 {
            text_cell(self.Alien)
        } else if j == 13 {
            text_cell(self.AlienGovernment)
        } else if j == 14 {
            text_cell(self.AlienCorporation)
        } else if j == 15 {
            text_cell(self.AlienOfficers)
        } else if j == 16 {
            text_cell(self.AlienControl)
        } else if j == 17 {
            text_cell(self.Revoked)
        } else if j == 18 {
            text_cell(self.Convicted)
        } else if j == 19 {
            text_cell(self.Adjudged)
        } else if j == 20 {
            text_cell(self.Reserved2)
        } else if j == 21 {
            text_cell(self.CommonCarrier)
        } else if j == 22 {
            text_cell(self.NonCommonCarrier)
        } else if j == 23 {
            text_cell(self.PrivateComm)
        } else if j == 24 {
            text_cell(self.Fixed)
        } else if j == 25 {
            text_cell(self.Mobile)
        } else if j == 26 {
            text_cell(self.Radiolocation)
        } else if j == 27 {
            text_cell(self.Sattelite)
        } else if j == 28 {
            text_cell(self.DevelopmentalOrSta)
        } else if j == 29 {
            text_cell(self.InterconnectedService)
        } else if j == 30 {
            text_cell(self.CertifierFirstName)
        } else if j == 31 {
            text_cell(self.CertifierMiddleInitial)
        } else if j == 32 {
            text_cell(self.CertifierLastName)
        } else if j == 33 {
            text_cell(self.CertifierSuffix)
        } else if j == 34 {
            text_cell(self.CertifierTitle)
        } else if j == 35 {
            text_cell(self.Female)
        } else if j == 36 {
            text_cell(self.BlackOrAfricanAmerican)
        } else if j == 37 {
            text_cell(self.NativeAmerican)
        } else if j == 38 {
            text_cell(self.Hawaiian)
        } else if j == 39 {
            text_cell(self.Asian)
        } else if j == 40 {
            text_cell(self.White)
        } else if j == 41 {
            text_cell(self.Hispanic)
        } else if j == 42 {
            date_cell(self.EffectiveDate)
        } else if j == 43 {
            date_cell(self.LastActionDate)
        } else if j == 44 {
            int_cell(self.AuctionId)
        } else if j == 45 {
            text_cell(self.BroadcastServicesRegulatoryStatus)
        } else if j == 46 {
            text_cell(self.BandManagerRegulatoryStatus)
        } else if j == 47 {
            text_cell(self.BroadcastServicesTypeOfRadioService)
        } else if j == 48 {
            text_cell(self.AlienRuling)
        } else if j == 49 {
            text_cell(self.LicenseeNameChange)
        } else if j == 50 {
            text_cell(self.WhitespaceIndicator)
        } else if j == 51 {
            text_cell(self.OperationRequirementChoice)
        } else if j == 52 {
            text_cell(self.OperationRequirementAnswer)
        } else if j == 53 {
            text_cell(self.DiscontinuationOfService)
        } else if j == 54 {
            text_cell(self.RegulatoryCompliance)
        } else if j == 55 {
            text_cell(self.EligibilityCertification900Mhz)
        } else if j == 56 {
            text_cell(self.TransitionPlanCertification900Mhz)
        } else if j == 57 {
            text_cell(self.ReturnSpectrumCertification900Mhz)
        } else {
            text_cell(self.PaymentCertification900Mhz)
        }
    }

    /// The values that the row binds, in the order of the table's columns.
    pub open spec fn cells(&self) -> Seq<SqlCell> {
        Seq::new(59, |j: int| self.cell_at(j))
    }

    /// Reads one line, field by field in the order of the columns. The line
    /// must have 59 fields, and each must hold a value of its column's kind.
    pub fn from_fields(fields: &Vec<String>) -> (r: Result<Header, RowError>)
        ensures
            match r {
                Ok(rec) => RecordKind::Header.row(texts_of(fields@)) == Ok::<Seq<SqlCell>, RowError>(
                    rec.cells(),
                ),
                Err(e) => RecordKind::Header.row(texts_of(fields@)) == Err::<Seq<SqlCell>, RowError>(e),
            },
    {
        if fields.len() != 59 {
            return Err(RowError::ColumnCount { found: fields.len() });
        }
        let ghost texts = texts_of(fields@);
        let unique_system_identifier = match read_unsigned(fields, 1) {
            Ok(v) => v,
            Err(e) => {
                proof {
                    lemma_row_fails(RecordKind::Header, texts, 1);
                }
                return Err(e);
            },
        };
        let grant_date = match read_optional_date(fields, 7) {
            Ok(v) => v,
            Err(e) => {
                proof {
                    lemma_row_fails(RecordKind::Header, texts, 7);
                }
                return Err(e);
            },
        };
        let expired_date = match read_optional_date(fields, 8) {
            Ok(v) => v,
            Err(e) => {
                proof {
                    lemma_row_fails(RecordKind::Header, texts, 8);
                }
                return Err(e);
            },
        };
        let cancellation_date = match read_optional_date(fields, 9) {
            Ok(v) => v,
            Err(e) => {
                proof {
                    lemma_row_fails(RecordKind::Header, texts, 9);
                }
                return Err(e);
            },
        };
        let effective_date = match read_optional_date(fields, 42) {
            Ok(v) => v,
            Err(e) => {
                proof {
                    lemma_row_fails(RecordKind::Header, texts, 42);
                }
                return Err(e);
            },
        };
        let last_action_date = match read_optional_date(fields, 43) {
            Ok(v) => v,
            Err(e) => {
                proof {
                    lemma_row_fails(RecordKind::Header, texts, 43);
                }
                return Err(e);
            },
        };
        let auction_id = match read_optional_int(fields, 44) {
            Ok(v) => v,
            Err(e) => {
                proof {
                    lemma_row_fails(RecordKind::Header, texts, 44);
                }
                return Err(e);
            },
        };
        let rec = Header {
            RecordType: read_text(fields, 0),
            UniqueSystemIdentifier: unique_system_identifier,
            UlsFileNumber: read_text(fields, 2),
            EBFNumber: read_text(fields, 3),
            CallSign: read_text(fields, 4),
            LicenseStatus: read_text(fields, 5),
            RadioServiceCode: read_text(fields, 6),
            GrantDate: grant_date,
            ExpiredDate: expired_date,
            CancellationDate: cancellation_date,
            EligibilityRuleNumber: read_text(fields, 10),
            Reserved: read_text(fields, 11),
            Alien: read_text(fields, 12),
            AlienGovernment: read_text(fields, 13),
            AlienCorporation: read_text(fields, 14),
            AlienOfficers: read_text(fields, 15),
            AlienControl: read_text(fields, 16),
            Revoked: read_text(fields, 17),
            Convicted: read_text(fields, 18),
            Adjudged: read_text(fields, 19),
            Reserved2: read_text(fields, 20),
            CommonCarrier: read_text(fields, 21),
            NonCommonCarrier: read_text(fields, 22),
            PrivateComm: read_text(fields, 23),
            Fixed: read_text(fields, 24),
            Mobile: read_text(fields, 25),
            Radiolocation: read_text(fields, 26),
            Sattelite: read_text(fields, 27),
            DevelopmentalOrSta: read_text(fields, 28),
            InterconnectedService: read_text(fields, 29),
            CertifierFirstName: read_text(fields, 30),
            CertifierMiddleInitial: read_text(fields, 31),
            CertifierLastName: read_text(fields, 32),
            CertifierSuffix: read_text(fields, 33),
            CertifierTitle: read_text(fields, 34),
            Female: read_text(fields, 35),
            BlackOrAfricanAmerican: read_text(fields, 36),
            NativeAmerican: read_text(fields, 37),
            Hawaiian: read_text(fields, 38),
            Asian: read_text(fields, 39),
            White: read_text(fields, 40),
            Hispanic: read_text(fields, 41),
            EffectiveDate: effective_date,
            LastActionDate: last_action_date,
            AuctionId: auction_id,
            BroadcastServicesRegulatoryStatus: read_text(fields, 45),
            BandManagerRegulatoryStatus: read_text(fields, 46),
            BroadcastServicesTypeOfRadioService: read_text(fields, 47),
            AlienRuling: read_text(fields, 48),
            LicenseeNameChange: read_text(fields, 49),
            WhitespaceIndicator: read_text(fields, 50),
            OperationRequirementChoice: read_text(fields, 51),
            OperationRequirementAnswer: read_text(fields, 52),
            DiscontinuationOfService: read_text(fields, 53),
            RegulatoryCompliance: read_text(fields, 54),
            EligibilityCertification900Mhz: read_text(fields, 55),
            TransitionPlanCertification900Mhz: read_text(fields, 56),
            ReturnSpectrumCertification900Mhz: read_text(fields, 57),
            PaymentCertification900Mhz: read_text(fields, 58),
        };
        proof {
            lemma_row_maps(RecordKind::Header, texts, rec.cells());
        }
        Ok(rec)
    }

    /// The values that the row binds, in the order of the table's columns.
    pub fn values(&self) -> (v: Vec<SqlValue>)
        ensures
            cells_of(v@) == self.cells(),
    {
        let mut v: Vec<SqlValue> = Vec::new();
        v.push(text_value(&self.RecordType));
        v.push(unsigned_value(self.UniqueSystemIdentifier));
        v.push(text_value(&self.UlsFileNumber));
        v.push(text_value(&self.EBFNumber));
        v.push(text_value(&self.CallSign));
        v.push(text_value(&self.LicenseStatus));
        v.push(text_value(&self.RadioServiceCode));
        v.push(date_value(self.GrantDate));
        v.push(date_value(self.ExpiredDate));
        v.push(date_value(self.CancellationDate));
        v.push(text_value(&self.EligibilityRuleNumber));
        v.push(text_value(&self.Reserved));
        v.push(text_value(&self.Alien));
        v.push(text_value(&self.AlienGovernment));
        v.push(text_value(&self.AlienCorporation));
        v.push(text_value(&self.AlienOfficers));
        v.push(text_value(&self.AlienControl));
        v.push(text_value(&self.Revoked));
        v.push(text_value(&self.Convicted));
        v.push(text_value(&self.Adjudged));
        v.push(text_value(&self.Reserved2));
        v.push(text_value(&self.CommonCarrier));
        v.push(text_value(&self.NonCommonCarrier));
        v.push(text_value(&self.PrivateComm));
        v.push(text_value(&self.Fixed));
        v.push(text_value(&self.Mobile));
        v.push(text_value(&self.Radiolocation));
        v.push(text_value(&self.Sattelite));
        v.push(text_value(&self.DevelopmentalOrSta));
        v.push(text_value(&self.InterconnectedService));
        v.push(text_value(&self.CertifierFirstName));
        v.push(text_value(&self.CertifierMiddleInitial));
        v.push(text_value(&self.CertifierLastName));
        v.push(text_value(&self.CertifierSuffix));
        v.push(text_value(&self.CertifierTitle));
        v.push(text_value(&self.Female));
        v.push(text_value(&self.BlackOrAfricanAmerican));
        v.push(text_value(&self.NativeAmerican));
        v.push(text_value(&self.Hawaiian));
        v.push(text_value(&self.Asian));
        v.push(text_value(&self.White));
        v.push(text_value(&self.Hispanic));
        v.push(date_value(self.EffectiveDate));
        v.push(date_value(self.LastActionDate));
        v.push(int_value(self.AuctionId));
        v.push(text_value(&self.BroadcastServicesRegulatoryStatus));
        v.push(text_value(&self.BandManagerRegulatoryStatus));
        v.push(text_value(&self.BroadcastServicesTypeOfRadioService));
        v.push(text_value(&self.AlienRuling));
        v.push(text_value(&self.LicenseeNameChange));
        v.push(text_value(&self.WhitespaceIndicator));
        v.push(text_value(&self.OperationRequirementChoice));
        v.push(text_value(&self.OperationRequirementAnswer));
        v.push(text_value(&self.DiscontinuationOfService));
        v.push(text_value(&self.RegulatoryCompliance));
        v.push(text_value(&self.EligibilityCertification900Mhz));
        v.push(text_value(&self.TransitionPlanCertification900Mhz));
        v.push(text_value(&self.ReturnSpectrumCertification900Mhz));
        v.push(text_value(&self.PaymentCertification900Mhz));
        assert(cells_of(v@) =~= self.cells());
        v
    }
}

/// One line of `HS.dat`: an entry of a licence's history.
#[allow(non_snake_case)]
#[derive(Clone, Debug, PartialEq, Eq)]
pub struct History {
    pub RecordType: String,
    pub UniqueSystemIdentifier: String,
    pub UlsFileNumber: String,
    pub CallSign: String,
    pub LogDate: Option<Date>,
    pub Code: String,
}

impl History {
    /// The value that the row binds at the column of index `j`.
    pub open spec fn cell_at(&self, j: int) -> SqlCell {
        if j == 0 {
            text_cell(self.RecordType)
        } else if j == 1 {
            text_cell(self.UniqueSystemIdentifier)
        } else if j == 2 {
            text_cell(self.UlsFileNumber)
        } else if j == 3 {
            text_cell(self.CallSign)
        } else if j == 4 {
            date_cell(self.LogDate)
        } else {
            text_cell(self.Code)
        }
    }

    /// The values that the row binds, in the order of the table's columns.
    pub open spec fn cells(&self) -> Seq<SqlCell> {
        Seq::new(6, |j: int| self.cell_at(j))
    }

    /// Reads one line, field by field in the order of the columns. The line
    /// must have 6 fields, and each must hold a value of its column's kind.
    pub fn from_fields(fields: &Vec<String>) -> (r: Result<History, RowError>)
        ensures
            match r {
                Ok(rec) => RecordKind::History.row(texts_of(fields@)) == Ok::<Seq<SqlCell>, RowError>(
                    rec.cells(),
                ),
                Err(e) => RecordKind::History.row(texts_of(fields@)) == Err::<Seq<SqlCell>, RowError>(e),
            },
    {
        if fields.len() != 6 {
            return Err(RowError::ColumnCount { found: fields.len() });
        }
        let ghost texts = texts_of(fields@);
        let log_date = match read_optional_date(fields, 4) {
            Ok(v) => v,
            Err(e) => {
                proof {
                    lemma_row_fails(RecordKind::History, texts, 4);
                }
                return Err(e);
            },
        };
        let rec = History {
            RecordType: read_text(fields, 0),
            UniqueSystemIdentifier: read_text(fields, 1),
            UlsFileNumber: read_text(fields, 2),
            CallSign: read_text(fields, 3),
            LogDate: log_date,
            Code: read_text(fields, 5),
        };
        proof {
            lemma_row_maps(RecordKind::History, texts, rec.cells());
        }
        Ok(rec)
    }

    /// The values that the row binds, in the order of the table's columns.
    pub fn values(&self) -> (v: Vec<SqlValue>)
        ensures
            cells_of(v@) == self.cells(),
    {
        let mut v: Vec<SqlValue> = Vec::new();
        v.push(text_value(&self.RecordType));
        v.push(text_value(&self.UniqueSystemIdentifier));
        v.push(text_value(&self.UlsFileNumber));
        v.push(text_value(&self.CallSign));
        v.push(date_value(self.LogDate));
        v.push(text_value(&self.Code));
        assert(cells_of(v@) =~= self.cells());
        v
    }
}

/// One line of `LA.dat`: a document attached to a licence.
#[allow(non_snake_case)]
#[derive(Clone, Debug, PartialEq, Eq)]
pub struct LicenseAttachment {
    pub RecordType: String,
    pub UniqueSystemIdentifier: u32,
    pub CallSign: String,
    pub AttachmentCode: String,
    pub AttachmentDescription: String,
    pub AttachmentDate: Option<Date>,
    pub AttachmentFileName: String,
    pub ActionPerformed: String,
}

impl LicenseAttachment {
    /// The value that the row binds at the column of index `j`.
    pub open spec fn cell_at(&self, j: int) -> SqlCell {
        if j == 0 {
            text_cell(self.RecordType)
        } else if j == 1 {
            unsigned_cell(self.UniqueSystemIdentifier)
        } else if j == 2 {
            text_cell(self.CallSign)
        } else if j == 3 {
            text_cell(self.AttachmentCode)
        } else if j == 4 {
            text_cell(self.AttachmentDescription)
        } else if j == 5 {
            date_cell(self.AttachmentDate)
        } else if j == 6 {
            text_cell(self.AttachmentFileName)
        } else {
            text_cell(self.ActionPerformed)
        }
    }

    /// The values that the row binds, in the order of the table's columns.
    pub open spec fn cells(&self) -> Seq<SqlCell> {
        Seq::new(8, |j: int| self.cell_at(j))
    }

    /// Reads one line, field by field in the order of the columns. The line
    /// must have 8 fields, and each must hold a value of its column's kind.
    pub fn from_fields(fields: &Vec<String>) -> (r: Result<LicenseAttachment, RowError>)
        ensures
            match r {
                Ok(rec) => RecordKind::LicenseAttachment.row(texts_of(fields@)) == Ok::<Seq<SqlCell>, RowError>(
                    rec.cells(),
                ),
                Err(e) => RecordKind::LicenseAttachment.row(texts_of(fields@)) == Err::<Seq<SqlCell>, RowError>(e),
            },
    {
        if fields.len() != 8 {
            return Err(RowError::ColumnCount { found: fields.len() });
        }
        let ghost texts = texts_of(fields@);
        let unique_system_identifier = match read_unsigned(fields, 1) {
            Ok(v) => v,
            Err(e) => {
                proof {
                    lemma_row_fails(RecordKind::LicenseAttachment, texts, 1);
                }
                return Err(e);
            },
        };
        let attachment_date = match read_optional_date(fields, 5) {
            Ok(v) => v,
            Err(e) => {
                proof {
                    lemma_row_fails(RecordKind::LicenseAttachment, texts, 5);
                }
                return Err(e);
            },
        };
        let rec = LicenseAttachment {
            RecordType: read_text(fields, 0),
            UniqueSystemIdentifier: unique_system_identifier,
            CallSign: read_text(fields, 2),
            AttachmentCode: read_text(fields, 3),
            AttachmentDescription: read_text(fields, 4),
            AttachmentDate: attachment_date,
            AttachmentFileName: read_text(fields, 6),
            ActionPerformed: read_text(fields, 7),
        };
        proof {
            lemma_row_maps(RecordKind::LicenseAttachment, texts, rec.cells());
        }
        Ok(rec)
    }

    /// The values that the row binds, in the order of the table's columns.
    pub fn values(&self) -> (v: Vec<SqlValue>)
        ensures
            cells_of(v@) == self.cells(),
    {
        let mut v: Vec<SqlValue> = Vec::new();
        v.push(text_value(&self.RecordType));
        v.push(unsigned_value(self.UniqueSystemIdentifier));
        v.push(text_value(&self.CallSign));
        v.push(text_value(&self.AttachmentCode));
        v.push(text_value(&self.AttachmentDescription));
        v.push(date_value(self.AttachmentDate));
        v.push(text_value(&self.AttachmentFileName));
        v.push(text_value(&self.ActionPerformed));
        assert(cells_of(v@) =~= self.cells());
        v
    }
}

/// One line of `SC.dat`: a special condition on a licence.
#[allow(non_snake_case)]
#[derive(Clone, Debug, PartialEq, Eq)]
pub struct SpecialCondition {
    pub RecordType: String,
    pub UniqueSystemIdentifier: u32,
    pub UlsFileNumber: String,
    pub EBFNumber: String,
    pub CallSign: String,
    pub SpecialConditionType: String,
    pub SpecialConditionCode: Option<i32>,
    pub StatusCode: String,
    pub StatusDate: Option<Date>,
}

impl SpecialCondition {
    /// The value that the row binds at the column of index `j`.
    pub open spec fn cell_at(&self, j: int) -> SqlCell {
        if j == 0 {
            text_cell(self.RecordType)
        } else if j == 1 {
            unsigned_cell(self.UniqueSystemIdentifier)
        } else if j == 2 {
            text_cell(self.UlsFileNumber)
        } else if j == 3 {
            text_cell(self.EBFNumber)
        } else if j == 4 {
            text_cell(self.CallSign)
        } else if j == 5 {
            text_cell(self.SpecialConditionType)
        } else if j == 6 {
            int_cell(self.SpecialConditionCode)
        } else if j == 7 {
            text_cell(self.StatusCode)
        } else {
            date_cell(self.StatusDate)
        }
    }

    /// The values that the row binds, in the order of the table's columns.
    pub open spec fn cells(&self) -> Seq<SqlCell> {
        Seq::new(9, |j: int| self.cell_at(j))
    }

    /// Reads one line, field by field in the order of the columns. The line
    /// must have 9 fields, and each must hold a value of its column's kind.
    pub fn from_fields(fields: &Vec<String>) -> (r: Result<SpecialCondition, RowError>)
        ensures
            match r {
                Ok(rec) => RecordKind::SpecialCondition.row(texts_of(fields@)) == Ok::<Seq<SqlCell>, RowError>(
                    rec.cells(),
                ),
                Err(e) => RecordKind::SpecialCondition.row(texts_of(fields@)) == Err::<Seq<SqlCell>, RowError>(e),
            },
    {
        if fields.len() != 9 {
            return Err(RowError::ColumnCount { found: fields.len() });
        }
        let ghost texts = texts_of(fields@);
        let unique_system_identifier = match read_unsigned(fields, 1) {
            Ok(v) => v,
            Err(e) => {
                proof {
                    lemma_row_fails(RecordKind::SpecialCondition, texts, 1);
                }
                return Err(e);
            },
        };
        let special_condition_code = match read_optional_int(fields, 6) {
            Ok(v) => v,
            Err(e) => {
                proof {
                    lemma_row_fails(RecordKind::SpecialCondition, texts, 6);
                }
                return Err(e);
            },
        };
        let status_date = match read_optional_date(fields, 8) {
            Ok(v) => v,
            Err(e) => {
                proof {
                    lemma_row_fails(RecordKind::SpecialCondition, texts, 8);
                }
                return Err(e);
            },
        };
        let rec = SpecialCondition {
            RecordType: read_text(fields, 0),
            UniqueSystemIdentifier: unique_system_identifier,
            UlsFileNumber: read_text(fields, 2),
            EBFNumber: read_text(fields, 3),
            CallSign: read_text(fields, 4),
            SpecialConditionType: read_text(fields, 5),
            SpecialConditionCode: special_condition_code,
            StatusCode: read_text(fields, 7),
            StatusDate: status_date,
        };
        proof {
            lemma_row_maps(RecordKind::SpecialCondition, texts, rec.cells());
        }
        Ok(rec)
    }

    /// The values that the row binds, in the order of the table's columns.
    pub fn values(&self) -> (v: Vec<SqlValue>)
        ensures
            cells_of(v@) == self.cells(),
    {
        let mut v: Vec<SqlValue> = Vec::new();
        v.push(text_value(&self.RecordType));
        v.push(unsigned_value(self.UniqueSystemIdentifier));
        v.push(text_value(&self.UlsFileNumber));
        v.push(text_value(&self.EBFNumber));
        v.push(text_value(&self.CallSign));
        v.push(text_value(&self.SpecialConditionType));
        v.push(int_value(self.SpecialConditionCode));
        v.push(text_value(&self.StatusCode));
        v.push(date_value(self.StatusDate));
        assert(cells_of(v@) =~= self.cells());
        v
    }
}

/// One line of `SF.dat`: a special condition in free text.
#[allow(non_snake_case)]
#[derive(Clone, Debug, PartialEq, Eq)]
pub struct SpecialConditionFreeForm {
    pub RecordType: String,
    pub UniqueSystemIdentifier: u32,
    pub UlsFileNumber: String,
    pub EBFNumber: String,
    pub CallSign: String,
    pub LicenseFreeFormType: String,
    pub UniqueLicenseFreeFormIdentifier: String,
    pub SequenceNumber: Option<i32>,
    pub LicenseFreeFormCondition: String,
    pub StatusCode: String,
    pub StatusDate: Option<Date>,
}

impl SpecialConditionFreeForm {
    /// The value that the row binds at the column of index `j`.
    pub open spec fn cell_at(&self, j: int) -> SqlCell {
        if j == 0 {
            text_cell(self.RecordType)
        } else if j == 1 {
            unsigned_cell(self.UniqueSystemIdentifier)
        } else if j == 2 {
            text_cell(self.UlsFileNumber)
        } else if j == 3 {
            text_cell(self.EBFNumber)
        } else if j == 4 {
            text_cell(self.CallSign)
        } else if j == 5 {
            text_cell(self.LicenseFreeFormType)
        } else if j == 6 {
            text_cell(self.UniqueLicenseFreeFormIdentifier)
        } else if j == 7 {
            int_cell(self.SequenceNumber)
        } else if j == 8 {
            text_cell(self.LicenseFreeFormCondition)
        } else if j == 9 {
            text_cell(self.StatusCode)
        } else {
            date_cell(self.StatusDate)
        }
    }

    /// The values that the row binds, in the order of the table's columns.
    pub open spec fn cells(&self) -> Seq<SqlCell> {
        Seq::new(11, |j: int| self.cell_at(j))
    }

    /// Reads one line, field by field in the order of the columns. The line
    /// must have 11 fields, and each must hold a value of its column's kind.
    pub fn from_fields(fields: &Vec<String>) -> (r: Result<SpecialConditionFreeForm, RowError>)
        ensures
            match r {
                Ok(rec) => RecordKind::SpecialConditionFreeForm.row(texts_of(fields@)) == Ok::<Seq<SqlCell>, RowError>(
                    rec.cells(),
                ),
                Err(e) => RecordKind::SpecialConditionFreeForm.row(texts_of(fields@)) == Err::<Seq<SqlCell>, RowError>(e),
            },
    {
        if fields.len() != 11 {
            return Err(RowError::ColumnCount { found: fields.len() });
        }
        let ghost texts = texts_of(fields@);
        let unique_system_identifier = match read_unsigned(fields, 1) {
            Ok(v) => v,
            Err(e) => {
                proof {
                    lemma_row_fails(RecordKind::SpecialConditionFreeForm, texts, 1);
                }
                return Err(e);
            },
        };
        let sequence_number = match read_optional_int(fields, 7) {
            Ok(v) => v,
            Err(e) => {
                proof {
                    lemma_row_fails(RecordKind::SpecialConditionFreeForm, texts, 7);
                }
                return Err(e);
            },
        };
        let status_date = match read_optional_date(fields, 10) {
            Ok(v) => v,
            Err(e) => {
                proof {
                    lemma_row_fails(RecordKind::SpecialConditionFreeForm, texts, 10);
                }
                return Err(e);
            },
        };
        let rec = SpecialConditionFreeForm {
            RecordType: read_text(fields, 0),
            UniqueSystemIdentifier: unique_system_identifier,
            UlsFileNumber: read_text(fields, 2),
            EBFNumber: read_text(fields, 3),
            CallSign: read_text(fields, 4),
            LicenseFreeFormType: read_text(fields, 5),
            UniqueLicenseFreeFormIdentifier: read_text(fields, 6),
            SequenceNumber: sequence_number,
            LicenseFreeFormCondition: read_text(fields, 8),
            StatusCode: read_text(fields, 9),
            StatusDate: status_date,
        };
        proof {
            lemma_row_maps(RecordKind::SpecialConditionFreeForm, texts, rec.cells());
        }
        Ok(rec)
    }

    /// The values that the row binds, in the order of the table's columns.
    pub fn values(&self) -> (v: Vec<SqlValue>)
        ensures
            cells_of(v@) == self.cells(),
    {
        let mut v: Vec<SqlValue> = Vec::new();
        v.push(text_value(&self.RecordType));
        v.push(unsigned_value(self.UniqueSystemIdentifier));
        v.push(text_value(&self.UlsFileNumber));
        v.push(text_value(&self.EBFNumber));
        v.push(text_value(&self.CallSign));
        v.push(text_value(&self.LicenseFreeFormType));
        v.push(text_value(&self.UniqueLicenseFreeFormIdentifier));
        v.push(int_value(self.SequenceNumber));
        v.push(text_value(&self.LicenseFreeFormCondition));
        v.push(text_value(&self.StatusCode));
        v.push(date_value(self.StatusDate));
        assert(cells_of(v@) =~= self.cells());
        v
    }
}

} // verus!
