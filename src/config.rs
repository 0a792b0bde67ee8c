//! Settings of the viewer; reading and writing them is left to the caller.
use vstd::prelude::*;

verus! {

/// Colors of the graph lanes and of the head marker, by name.
#[derive(Debug, Clone)]
pub struct Colors {
    pub graph1: String,
    pub graph2: String,
    pub head: String,
}

/// Settings for the log producer.
#[derive(Debug, Clone)]
pub struct GitConfig {
    pub default_range: String,
    pub extra_args: Vec<String>,
}

/// Settings of the viewer.
#[derive(Debug, Clone)]
pub struct Config {
    pub style: String,
    pub unicode: bool,
    pub no_color: bool,
    /// strftime format of the dates in the list.
    pub date_format: String,
    pub confirm_dangerous: bool,
    pub paging: String,
    pub colors: Colors,
    pub git: GitConfig,
}

impl Default for Config {
    /// The settings used when none are stored.
    fn default() -> (r: Self)
        ensures
            r.style@ == "auto"@,
            !r.unicode,
            !r.no_color,
            r.date_format@ == "%Y-%m-%d %H:%M"@,
            r.confirm_dangerous,
            r.paging@ == "auto"@,
            r.colors.graph1@ == "blue"@,
            r.colors.graph2@ == "magenta"@,
            r.colors.head@ == "cyan"@,
            r.git.default_range@.len() == 0,
            r.git.extra_args@.len() == 0,
    {
        Config {
            style: "auto".to_owned(),
            unicode: false,
            no_color: false,
            date_format: "%Y-%m-%d %H:%M".to_owned(),
            confirm_dangerous: true,
            paging: "auto".to_owned(),
            colors: Colors {
                graph1: "blue".to_owned(),
                graph2: "magenta".to_owned(),
                head: "cyan".to_owned(),
            },
            git: GitConfig { default_range: String::new(), extra_args: Vec::new() },
        }
    }
}

} // verus!
