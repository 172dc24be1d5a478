//! What the service is set to do.

use vstd::prelude::*;

verus! {

#[derive(Debug)]
pub struct PathsConfig {
    pub source: String,
}

#[derive(Debug)]
pub struct IntervalsConfig {
    pub min_interval_seconds: Option<u64>,
    pub days: Option<u64>,
    pub hours: Option<u64>,
    pub minutes: Option<u64>,
    pub seconds: Option<u64>,
    pub cron: Option<String>,
}

#[derive(Debug, Clone, Copy, PartialEq, Eq)]
pub struct BehaviorConfig {
    pub on_startup: bool,
    pub use_cron: Option<bool>,
}

#[derive(Debug, Clone, Copy, PartialEq, Eq)]
pub struct LimitsConfig {
    pub max_backups: Option<u32>,
}

#[derive(Debug)]
pub struct AppConfig {
    pub paths: PathsConfig,
    pub intervals: IntervalsConfig,
    pub behavior: BehaviorConfig,
    pub limits: LimitsConfig,
}

/// The limits of a configuration that sets none: five backups.
pub fn default_limits() -> (r: LimitsConfig)
    ensures
        r.max_backups == Some(5u32),
{
    LimitsConfig { max_backups: Some(5) }
}

/// What is written where there is no configuration yet.
pub const DEFAULT_CONFIG: &'static str = r#"[paths]
source = "C:/Users/Public/Documents/Softouch"

[intervals]
# Opción 1: Usar valores legibles (días, horas, minutos, segundos)
# Si se definen estos, se calcula el intervalo total en segundos.
# days = 0
# hours = 0
# minutes = 30
# seconds = 0

# Opción 2: Usar una expresión cron explícita (tiene precedencia si use_cron = true)
# Formato: segundos minutos horas dia_mes mes dia_semana
# cron = "0 */30 * * * *" # Cada 30 minutos (segundo 0)

# Opción 3: (Legacy) Intervalo en segundos (menos precisa, se convierte a minutos/horas/días si es posible)
# min_interval_seconds = 1800 # Equivale a 30 minutos

[behavior]
on_startup = true
# Si use_cron es true, se ignora el cálculo de intervalo legible y se usa el campo 'cron'.
use_cron = false

[limits]
max_backups = 5
"#;

} // verus!
