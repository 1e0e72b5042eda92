//! German energy metering: market identifiers, OBIS codes and the coded
//! vocabularies of the German market; the Berlin calendar of settlement days;
//! and the billing arithmetic on exact decimals — aggregation into billing
//! periods, peak demand, allocation keys, § 14a EnWG minimum power, gas
//! conversion, grid losses, imbalance and annual forecasts — with their
//! contracts proved by Verus.
//!
//! Every coded type has one code: `as_str`, `to_string` and its parser agree
//! on it, and parsing the code of a value gives the value back. Every decimal
//! is rust_decimal's value set ([`Dec`]), and its arithmetic rust_decimal's:
//! a function whose arithmetic could overflow states when it does not, and
//! has a `checked_` companion that reports it.

pub mod text;
pub mod error;
pub mod decimal;
pub mod resolution;
pub mod interval;
pub mod obis;
pub mod ids;
pub mod load_profile;
pub mod holiday;
pub mod classification;
pub mod lifecycle;
pub mod para14a;
pub mod calendar;
pub mod allocation;
pub mod aggregation_rule;
pub mod aggregation;
pub mod forecast;
pub mod measurement_series;
pub mod measurement_point;
pub mod conversion;
pub mod demand;
pub mod imbalance;
pub mod losses;
pub mod gas_slp;

pub use aggregation::{AggregationConfig, BillingPeriod, aggregate};
pub use aggregation_rule::AggregationRule;
pub use allocation::{
    ALLOCATION_DP, AllocatedPart, AllocationBasis, AllocationError, AllocationPart, AllocationRow,
    allocate, allocation_share, validate_key,
};
pub use calendar::{
    DayBoundary, DayKind, day_length, day_start_utc, gas_day_start_utc, intervals_in_day,
    local_day, local_gas_day,
};
pub use classification::{Messtyp, SeriesOrigin, classify_messtyp_from_resolution, median_interval_seconds};
pub use conversion::{
    ConversionError, G685FinalRounding, G685Rounding, GasConversionParams, WarmWaterAdjustments,
    ZustandszahlParams, gas_m3_to_kwh_hs, gas_m3_to_kwh_hs_rounded, hoehenzonen_luftdruck_mbar,
    normalize_to_kwh, warm_water_heat_kwh, warm_water_heat_kwh_unmetered, zustandszahl,
};
pub use decimal::Dec;
pub use demand::{DemandInterval, DemandWindow};
pub use error::ParseError;
pub use forecast::{AnnualForecast, FORECAST_DP, project_annual_consumption};
pub use gas_slp::{WeekdayFactors, allocation_temperature, gas_daily_quantity, kundenwert};
pub use holiday::{Bundesland, Holiday, slp_day_type};
pub use ids::{BdewCode, CodeVergabestelle, Eic, EicType, MaloId, MaloIssuer, MeloId, Regelzone};
pub use imbalance::{ImbalanceSaldo, compute_imbalance};
pub use interval::{Direction, MeasurementUnit, MeterInterval, QualityFlag, Sparte, UnitScale};
pub use lifecycle::{MeterExchangeEvent, MeterLifecycleEvent, MeterLifecycleEventType, MeterStatus};
pub use load_profile::{LoadProfile, SlpDayType};
pub use losses::{NetworkLosses, network_losses};
pub use measurement_point::{EnergyFlow, MarktRolle, MeasurementPoint};
pub use measurement_series::{
    MeasurementSeries, MeasurementSource, ProvenanceEntry, ProvenanceEventType,
};
pub use obis::{ObisCode, RegisterUnit};
pub use para14a::{
    GLEICHZEITIGKEITSFAKTOREN, MINDESTLEISTUNG_KW, Para14aConfig, STEUVE_SCHWELLE_KW, SteuVe,
    SteuVeFallgruppe, Verursachungsregel, gleichzeitigkeitsfaktor,
    mindestleistung_direktansteuerung, mindestleistung_ems, netzwirksamer_leistungsbezug,
};
pub use resolution::{CustomSeconds, IntervalResolution};
