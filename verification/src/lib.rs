//! Shared data types for the Automatic Packet Reporting System (APRS)
//! protocol: the closed set of map-symbol variants drawn from the two APRS
//! icon tables, together with the classification of a raw
//! (table selector, symbol code) byte pair into that set.
//!
//! The crate defines no parsing or encoding behaviour of its own; it gives
//! independently written encoders and decoders a common vocabulary, so that
//! client code can consume decoded values without caring which
//! implementation produced them.

use vstd::prelude::*;

pub mod symbol;

verus! {

/// A station or object icon from the APRS symbol tables.
///
/// The set is closed: every icon named by the protocol's printable-character
/// tables has its own variant, and every byte pair that names no icon is
/// classified as the catch-all [`Symbol::Other`]. A `Symbol` carries no data
/// beyond its identity and is produced only by the classification functions.
#[derive(Debug, Clone, PartialEq, Eq)]
pub enum Symbol {
    Sheriff,                       // /! BB    Police, Sheriff
    Emergency,                     // \! OBO   EMERGENCY (and overlays)
    Phone,                         // /$ BE    PHONE
    BankOrAtm,                     // \$ OEO   Bank or ATM  (green box)
    PowerPlant,                    // \% OFO   Power Plant with overlay
    HfGateway,                     // /& BG    HF GATEway
    SmallAircraft,                 // /' BH    Small AIRCRAFT (SSID-11)
    IncidentSite,                  // \' OHO   Crash (& now Incident sites)
    MobileSatelliteStation,        // /( BI    Mobile Satellite Station
    Cloudy,                        // \( OIO   CLOUDY (other clouds w ovrly)
    Handicapped,                   // /) BJ    Wheelchair (handicapped)
    Firenet,                       // \) OJO   Firenet MEO, MODIS Earth Obs.
    Snowmobile,                    // /* BK    SnowMobile
    RedCross,                      // /+ BL    Red Cross
    Church,                        // \+ OL    Church
    BoyScouts,                     // /, BM    Boy Scouts
    GirlScouts,                    // \, OM    Girl Scouts
    HouseQth,                      // /- BN    House QTH (VHF)
    HouseHhf,                      // \- ONO   House (H=HF) (O = Op Present)
    Cross,                         // /. BO    X
    BigQuestionMark,               // \. OO    Ambiguous (Big Question mark)
    RedDot,                        // // BP    Red Dot
    Waypoint,                      // \/ OP    Waypoint Destination
    Circle,                        // \0 A0#   CIRCLE (IRLP/Echolink/WIRES)
    WiFi,                          // \8 A8O   802.11 or other network node
    GasStation,                    // \9 A9    Gas Station (blue pump)
    Fire,                          // /: MR    FIRE
    Campground,                    // /; MS    Campground (Portable ops)
    Park,                          // \; NSO   Park/Picnic + overlay events
    Motorcycle,                    // /< MT    Motorcycle     (SSID-10)
    Advisory,                      // \< NTO   ADVISORY (one WX flag)
    RailroadEngine,                // /= MU    RAILROAD ENGINE
    Car,                           // /> MV    CAR            (SSID-9)
    OverlayedVehicles,             // \> NV#   OVERLAYED CARs & Vehicles
    Server,                        // /? MW    SERVER for Files
    InfoKiosk,                     // \? NW    INFO Kiosk  (Blue box with ?)
    Dot,                           // /@ MX    HC FUTURE predict (dot)
    Huricane,                      // \@ NX    HURICANE/Trop-Storm
    AidStation,                    // /A PA    Aid Station
    BoxOverlay,                    // \A AA#   overlayBOX DTMF & RFID & XO
    Bbs,                           // /B PB    BBS or PBBS
    Canoe,                         // /C PC    Canoe
    CoastGuard,                    // \C AC    Coast Guard
    Depots,                        // \D ADO   DEPOTS (Drizzle ==> ' ovly D)
    Eyeball,                       // /E PE    EYEBALL (Events, etc!)
    Smoke,                         // \E AE    Smoke (& other vis codes)
    Tractor,                       // /F PF    Farm Vehicle (tractor)
    GridSquare,                    // /G PG    Grid Square (6 digit)
    SnowShower,                    // \G AG    AVAIL (Snow Shwr ==> I ovly S)
    Hotel,                         // /H PH    HOTEL (blue bed symbol)
    Haze,                          // \H AHO   \Haze (& Overlay Hazards)
    NetworkStation,                // /I PI    TcpIp on air network stn
    RainShower,                    // \I AI    Rain Shower
    Lightening,                    // \J AJ    AVAIL (Lightening ==> I ovly L)
    School,                        // /K PK    School
    KenwoodHt,                     // \K AK    Kenwood HT (W)
    PcUser,                        // /L PL    PC user (Jan 03)
    Lighthouse,                    // \L AL    Lighthouse
    MacAprs,                       // /M PM    MacAPRS
    Military,                      // \M AMO   MARS (A=Army,N=Navy,F=AF)
    NtsStation,                    // /N PN    NTS Station
    NavigationBuoy,                // \N AN    Navigation Buoy
    Balloon,                       // /O PO    BALLOON        (SSID-11)
    Rocket,                        // \O AO    Overlay Balloon (Rocket = \O)
    Police,                        // /P PP    Police
    Parking,                       // \P AP    Parking
    Quake,                         // \Q AQ    QUAKE
    RecVehicle,                    // /R PR    REC. VEHICLE   (SSID-13)
    Restaurant,                    // \R ARO   Restaurant
    Shuttle,                       // /S PS    SHUTTLE
    Satellite,                     // \S AS    Satellite/Pacsat
    Sstv,                          // /T PT    SSTV
    Thunderstorm,                  // \T AT    Thunderstorm
    Bus,                           // /U PU    BUS            (SSID-2)
    Sunny,                         // \U AU    SUNNY
    Atv,                           // /V PV    ATV
    VortacNavAid,                  // \V AV    VORTAC Nav Aid
    NationalWxServiceSite,         // /W PW    National WX Service Site
    NwsSite,                       // \W AW#   # NWS site (NWS options)
    Helo,                          // /X PX    HELO           (SSID-6)
    Pharmacy,                      // \X AX    Pharmacy Rx (Apothicary)
    Yacht,                         // /Y PY    YACHT (sail)   (SSID-5)
    RadiosAndDevices,              // \Y AYO   Radios and devices
    WinAprs,                       // /Z PZ    WinAPRS
    Person,                        // /[ HS    Human/Person   (SSID-7)
    CloudOrHumansWOvrly,           // \[ DSO   W.Cloud (& humans w Ovrly)
    Triangle,                      // /\ HT    TRIANGLE(DF station)
    GpsSymbol,                     // \\ DTO   New overlayable GPS symbol
    PostOffice,                    // /] HU    MAIL/PostOffice(was PBBS)
    LargeAircraft,                 // /^ HV    LARGE AIRCRAFT
    OtherAircraft,                 // \^ DV#   other Aircraft ovrlys (2014)
    WeatherStation,                // /_ HW    WEATHER Station (blue)
    WxSite,                        // \_ DW#   # WX site (green digi)
    DishAntenna,                   // /` HX    Dish Antenna
    Rain,                          // \` DX    Rain (all types w ovrly)
    Ambulance,                     // /a LA    AMBULANCE     (SSID-1)
    Bike,                          // /b LB    BIKE          (SSID-4)
    IncidentCommandPost,           // /c LC    Incident Command Post
    FireDept,                      // /d LD    Fire dept
    Horse,                         // /e LE    HORSE (equestrian)
    Sleet,                         // \e SE    Sleet (& future ovrly codes)
    FireTruck,                     // /f LF    FIRE TRUCK    (SSID-3)
    FunnelCloud,                   // \f SF    Funnel Cloud
    Glider,                        // /g LG    Glider
    Gale,                          // \g SG    Gale Flags
    Hospital,                      // /h LH    HOSPITAL
    Store,                         // \h SHO   Store. or HAMFST Hh=HAM store
    PointOfInterest,               // \i SI#   BOX or points of Interest
    Jeep,                          // /j LJ    JEEP          (SSID-12)
    Workzone,                      // \j SJ    WorkZone (Steam Shovel)
    Truck,                         // /k LK    TRUCK         (SSID-14)
    SpecialVehicle,                // \k SKO   Special Vehicle SUV,ATV,4x4
    Laptop,                        // /l LL    Laptop (Jan 03)  (Feb 07)
    Areas,                         // \l SL    Areas      (box,circles,etc)
    MicERepeater,                  // /m LM    Mic-E Repeater
    ValueSign,                     // \m SM    Value Sign (3 digit display)
    Node,                          // /n LN    Node (black bulls-eye)
    OverlayTriangle,               // \n SN#   OVERLAY TRIANGLE
    SmallCircle,                   // \o SO    small circle
    Dog,                           // /p LP    ROVER (puppy, or dog)
    Restroom,                      // \r SR    Restrooms
    Boat,                          // /s LS    SHIP (pwr boat)  (SSID-8)
    OverlayBoat,                   // \s SS#   OVERLAY SHIP/boats
    TruckStop,                     // /t LT    TRUCK STOP
    Tornado,                       // \t ST    Tornado
    Truck18Wheeler,                // /u LU    TRUCK (18 wheeler)
    OverlayedTruck,                // \u SU#   OVERLAYED TRUCK
    Van,                           // /v LV    VAN           (SSID-15)
    OverlayedVan,                  // \v SV#   OVERLAYED Van
    WaterStation,                  // /w LW    WATER station
    Flooding,                      // \w SWO   Flooding (Avalanches/Slides)
    Wreck,                         // \x SX    Wreck or Obstruction ->X<-
    Skywarn,                       // \y SY    Skywarn
    OverlayedShelter,              // \z SZ#   OVERLAYED Shelter
    Other,
}

/// Table selector byte of the primary symbol table (the character `/`).
pub const PRIMARY_SYMBOL_TABLE: u8 = 0x2f;

/// Table selector byte of the alternate symbol table (the backslash character).
pub const ALT_SYMBOL_TABLE: u8 = 0x5c;

impl Symbol {
    /// Classifies a (table selector, symbol code) byte pair.
    ///
    /// Total over all byte pairs: a pair outside the two tables' defined
    /// entries yields [`Symbol::Other`] rather than an error.
    pub fn from_table(table: u8, code: u8) -> (r: Symbol)
        ensures
            r == symbol::symbol_of(table, code),
    {
        symbol::from_table(table, code)
    }
}

} // verus!
