//! Tongue-in-cheek climate advice. Which pieces of advice apply to a reading
//! is decided here; the wording and where it is shown belong to the
//! rendering layer.

use vstd::prelude::*;

use crate::climate_data::ClimateData;

verus! {

/// One piece of advice the dashboard can show, in display order.
#[derive(Debug, Clone, Copy, PartialEq, Eq, Structural)]
pub enum AdviceKind {
    Co2High,
    Co2Low,
    TooWarm,
    TooCold,
    HumidityHigh,
    HumidityLow,
    Eco2High,
    EtvocHigh,
    PressureLow,
    PressureHigh,
    Dim,
    Bright,
}

/// CO2 advice: above 1000 ppm or below 800 ppm.
pub open spec fn advice_co2(c: ClimateData) -> Seq<AdviceKind> {
    match c.co2 {
        Some(v) => if v > 1000 {
            seq![AdviceKind::Co2High]
        } else if v < 800 {
            seq![AdviceKind::Co2Low]
        } else {
            Seq::empty()
        },
        None => Seq::empty(),
    }
}

/// Temperature advice: outside 20 to 25 degrees Celsius.
pub open spec fn advice_temperature(c: ClimateData) -> Seq<AdviceKind> {
    if c.temperature > 25000 {
        seq![AdviceKind::TooWarm]
    } else if c.temperature < 20000 {
        seq![AdviceKind::TooCold]
    } else {
        Seq::empty()
    }
}

/// Humidity advice: outside 30 to 70 percent.
pub open spec fn advice_humidity(c: ClimateData) -> Seq<AdviceKind> {
    if c.humidity > 70000 {
        seq![AdviceKind::HumidityHigh]
    } else if c.humidity < 30000 {
        seq![AdviceKind::HumidityLow]
    } else {
        Seq::empty()
    }
}

/// Air-quality advice: eCO2 above 1000 ppm, eTVOC above 500 ppb.
pub open spec fn advice_air(c: ClimateData) -> Seq<AdviceKind> {
    (if c.eco2 > 1000 {
        seq![AdviceKind::Eco2High]
    } else {
        Seq::empty()
    }) + (if c.etvoc > 500 {
        seq![AdviceKind::EtvocHigh]
    } else {
        Seq::empty()
    })
}

/// Pressure advice: outside 1000 to 1020 hectopascals.
pub open spec fn advice_pressure(c: ClimateData) -> Seq<AdviceKind> {
    if c.pressure < 1000000 {
        seq![AdviceKind::PressureLow]
    } else if c.pressure > 1020000 {
        seq![AdviceKind::PressureHigh]
    } else {
        Seq::empty()
    }
}

/// Light advice: below 100 lux or above 800 lux.
pub open spec fn advice_light(c: ClimateData) -> Seq<AdviceKind> {
    match c.light {
        Some(v) => if v < 100000 {
            seq![AdviceKind::Dim]
        } else if v > 800000 {
            seq![AdviceKind::Bright]
        } else {
            Seq::empty()
        },
        None => Seq::empty(),
    }
}

/// All the advice a reading earns, in display order.
pub open spec fn spec_advice(c: ClimateData) -> Seq<AdviceKind> {
    advice_co2(c) + advice_temperature(c) + advice_humidity(c) + advice_air(c) + advice_pressure(c)
        + advice_light(c)
}

fn push_co2_advice(r: &mut Vec<AdviceKind>, c: &ClimateData)
    ensures
        final(r)@ == old(r)@ + advice_co2(*c),
{
    if let Some(co2) = c.co2 {
        if co2 > 1000 {
            r.push(AdviceKind::Co2High);
        } else if co2 < 800 {
            r.push(AdviceKind::Co2Low);
        }
    }
    proof {
        assert(r@ =~= old(r)@ + advice_co2(*c));
    }
}

fn push_temperature_advice(r: &mut Vec<AdviceKind>, c: &ClimateData)
    ensures
        final(r)@ == old(r)@ + advice_temperature(*c),
{
    if c.temperature > 25000 {
        r.push(AdviceKind::TooWarm);
    } else if c.temperature < 20000 {
        r.push(AdviceKind::TooCold);
    }
    proof {
        assert(r@ =~= old(r)@ + advice_temperature(*c));
    }
}

fn push_humidity_advice(r: &mut Vec<AdviceKind>, c: &ClimateData)
    ensures
        final(r)@ == old(r)@ + advice_humidity(*c),
{
    if c.humidity > 70000 {
        r.push(AdviceKind::HumidityHigh);
    } else if c.humidity < 30000 {
        r.push(AdviceKind::HumidityLow);
    }
    proof {
        assert(r@ =~= old(r)@ + advice_humidity(*c));
    }
}

fn push_air_advice(r: &mut Vec<AdviceKind>, c: &ClimateData)
    ensures
        final(r)@ == old(r)@ + advice_air(*c),
{
    if c.eco2 > 1000 {
        r.push(AdviceKind::Eco2High);
    }
    if c.etvoc > 500 {
        r.push(AdviceKind::EtvocHigh);
    }
    proof {
        assert(r@ =~= old(r)@ + advice_air(*c));
    }
}

fn push_pressure_advice(r: &mut Vec<AdviceKind>, c: &ClimateData)
    ensures
        final(r)@ == old(r)@ + advice_pressure(*c),
{
    if c.pressure < 1000000 {
        r.push(AdviceKind::PressureLow);
    } else if c.pressure > 1020000 {
        r.push(AdviceKind::PressureHigh);
    }
    proof {
        assert(r@ =~= old(r)@ + advice_pressure(*c));
    }
}

fn push_light_advice(r: &mut Vec<AdviceKind>, c: &ClimateData)
    ensures
        final(r)@ == old(r)@ + advice_light(*c),
{
    if let Some(light) = c.light {
        if light < 100000 {
            r.push(AdviceKind::Dim);
        } else if light > 800000 {
            r.push(AdviceKind::Bright);
        }
    }
    proof {
        assert(r@ =~= old(r)@ + advice_light(*c));
    }
}

/// Selects the advice a reading earns, in display order.
pub fn select_advice(c: &ClimateData) -> (r: Vec<AdviceKind>)
    ensures
        r@ == spec_advice(*c),
{
    let mut r: Vec<AdviceKind> = Vec::new();
    push_co2_advice(&mut r, c);
    push_temperature_advice(&mut r, c);
    push_humidity_advice(&mut r, c);
    push_air_advice(&mut r, c);
    push_pressure_advice(&mut r, c);
    push_light_advice(&mut r, c);
    proof {
        assert(r@ =~= spec_advice(*c));
    }
    r
}

} // verus!
