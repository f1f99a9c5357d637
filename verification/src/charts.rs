//! Chart descriptions for the visualization layer: which view is
//! shown and how its axes are labelled.  Rendering itself is the
//! embedding program's concern.
use vstd::prelude::*;

use crate::packet::CSIPacket;

verus! {

#[derive(Debug, Clone)]
pub struct ChartConfig {
    pub title: String,
    pub x_label: String,
    pub y_label: String,
    pub show_grid: bool,
    pub auto_scale: bool,
}

impl Default for ChartConfig {
    fn default() -> (r: Self)
        ensures
            r.title@ == "CSI Data"@,
            r.x_label@ == "Subcarrier Index"@,
            r.y_label@ == "Magnitude (dB)"@,
            r.show_grid,
            r.auto_scale,
    {
        ChartConfig {
            title: "CSI Data".to_string(),
            x_label: "Subcarrier Index".to_string(),
            y_label: "Magnitude (dB)".to_string(),
            show_grid: true,
            auto_scale: true,
        }
    }
}

#[derive(Debug)]
pub enum ChartType {
    MagnitudeSpectrum,
    PhaseSpectrum,
    Heatmap,
    TimeSeries,
    Complex3D,
}

pub struct ChartBuilder;

impl ChartBuilder {
    /// The axis labelling each chart kind is drawn with.
    pub fn create_config(chart_type: ChartType) -> (r: ChartConfig)
        ensures
            r.show_grid,
            r.auto_scale,
            match chart_type {
                ChartType::MagnitudeSpectrum => r.title@ == "CSI Magnitude Spectrum"@ && r.x_label@
                    == "Subcarrier Index"@ && r.y_label@ == "Magnitude (dB)"@,
                ChartType::PhaseSpectrum => r.title@ == "CSI Phase Spectrum"@ && r.x_label@
                    == "Subcarrier Index"@ && r.y_label@ == "Phase (radians)"@,
                ChartType::Heatmap => r.title@ == "CSI Time-Frequency Heatmap"@ && r.x_label@
                    == "Time"@ && r.y_label@ == "Subcarrier Index"@,
                ChartType::TimeSeries => r.title@ == "RSSI Over Time"@ && r.x_label@ == "Time"@
                    && r.y_label@ == "RSSI (dBm)"@,
                ChartType::Complex3D => r.title@ == "3D Complex CSI"@ && r.x_label@ == "Real"@
                    && r.y_label@ == "Imaginary"@,
            },
    {
        match chart_type {
            ChartType::MagnitudeSpectrum => ChartConfig {
                title: "CSI Magnitude Spectrum".to_string(),
                x_label: "Subcarrier Index".to_string(),
                y_label: "Magnitude (dB)".to_string(),
                show_grid: true,
                auto_scale: true,
            },
            ChartType::PhaseSpectrum => ChartConfig {
                title: "CSI Phase Spectrum".to_string(),
                x_label: "Subcarrier Index".to_string(),
                y_label: "Phase (radians)".to_string(),
                show_grid: true,
                auto_scale: true,
            },
            ChartType::Heatmap => ChartConfig {
                title: "CSI Time-Frequency Heatmap".to_string(),
                x_label: "Time".to_string(),
                y_label: "Subcarrier Index".to_string(),
                show_grid: true,
                auto_scale: true,
            },
            ChartType::TimeSeries => ChartConfig {
                title: "RSSI Over Time".to_string(),
                x_label: "Time".to_string(),
                y_label: "RSSI (dBm)".to_string(),
                show_grid: true,
                auto_scale: true,
            },
            ChartType::Complex3D => ChartConfig {
                title: "3D Complex CSI".to_string(),
                x_label: "Real".to_string(),
                y_label: "Imaginary".to_string(),
                show_grid: true,
                auto_scale: true,
            },
        }
    }
}

/// Which live view the terminal plot area shows.
pub enum PlotType {
    TwoDimensional,
    ThreeDimensional,
    Heatmap,
    ColorDomain,
    TimeSeries,
}

pub struct PlotRenderer {
    pub plot_type: PlotType,
}

impl PlotRenderer {
    pub fn new(plot_type: PlotType) -> (r: Self)
        ensures
            r.plot_type == plot_type,
    {
        PlotRenderer { plot_type }
    }

    /// The placeholder text for the selected view.
    pub fn render_data(&self, _packets: &Vec<CSIPacket>) -> (r: String)
        ensures
            match self.plot_type {
                PlotType::TwoDimensional => r@ == "2D Plot View"@,
                PlotType::ThreeDimensional => r@ == "3D Plot View"@,
                PlotType::Heatmap => r@ == "Heatmap View"@,
                PlotType::ColorDomain => r@ == "Color Domain View"@,
                PlotType::TimeSeries => r@ == "Time Series View"@,
            },
    {
        match self.plot_type {
            PlotType::TwoDimensional => "2D Plot View".to_string(),
            PlotType::ThreeDimensional => "3D Plot View".to_string(),
            PlotType::Heatmap => "Heatmap View".to_string(),
            PlotType::ColorDomain => "Color Domain View".to_string(),
            PlotType::TimeSeries => "Time Series View".to_string(),
        }
    }
}

} // verus!
