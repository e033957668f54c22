use vstd::prelude::*;
use vstd::arithmetic::div_mod::{lemma_div_basics, lemma_div_is_ordered_by_denominator, lemma_fundamental_div_mod_converse};
use crate::simulator::types::{CameraFrame, FrameMetadata};
use crate::util::random::random_in;
use crate::util::text::same_text;

verus! {

/// A colour: red, green, blue.
#[derive(Clone, Copy, Debug, PartialEq, Eq, Structural)]
pub struct Rgb(pub u8, pub u8, pub u8);

/// What a camera sees before noise.
#[derive(Clone, Copy, Debug, PartialEq, Eq, Structural)]
pub enum Scene {
    /// The road ahead; lane markers shifted right when the truck drifts,
    /// and a load ahead when cargo is being tampered with.
    Road { lane_shift: bool, cargo_ahead: bool },
    /// The cargo bay; part of the load shown moved when tampered with.
    CargoBay { tampered: bool },
    /// A single colour.
    Plain { color: Rgb },
}

/// Byte `k` (0 red, 1 green, 2 blue) of a colour.
pub open spec fn channel(c: Rgb, k: int) -> u8 {
    if k == 0 {
        c.0
    } else if k == 1 {
        c.1
    } else {
        c.2
    }
}

/// The pixel at column `x`, row `y` of an image `width` pixels wide stored
/// row by row, three bytes per pixel.
pub open spec fn pixel_at(data: Seq<u8>, width: int, x: int, y: int) -> Rgb {
    let i = 3 * (y * width + x);
    Rgb(data[i], data[i + 1], data[i + 2])
}

pub open spec fn sky() -> Rgb {
    Rgb(135, 206, 235)
}

pub open spec fn asphalt() -> Rgb {
    Rgb(100, 100, 100)
}

pub open spec fn white() -> Rgb {
    Rgb(255, 255, 255)
}

pub open spec fn cargo_brown() -> Rgb {
    Rgb(200, 150, 100)
}

pub open spec fn bay_grey() -> Rgb {
    Rgb(50, 50, 50)
}

pub open spec fn alarm_red() -> Rgb {
    Rgb(255, 0, 0)
}

/// The colour of a scene at column `x`, row `y`. The road view (1280 by
/// 720) is sky above row 240 and asphalt below, with lane markers 11
/// pixels wide around the centre column on every 50th row from row 240;
/// a drifting truck sees a second marker 100 pixels to the right, and a
/// load ahead covers 200 by 100 pixels from column 426, row 360. The cargo
/// bay (800 by 600) shows a load over its middle half, its upper-left
/// quarter red when tampered with.
pub open spec fn scene_color(scene: Scene, x: int, y: int) -> Rgb {
    match scene {
        Scene::Road { lane_shift, cargo_ahead } => {
            let marker_row = y >= 240 && (y - 240) % 50 == 0;
            if cargo_ahead && 360 <= y < 460 && 426 <= x < 626 {
                cargo_brown()
            } else if marker_row && 635 <= x <= 645 {
                white()
            } else if lane_shift && marker_row && 735 <= x <= 745 {
                white()
            } else if y < 240 {
                sky()
            } else {
                asphalt()
            }
        },
        Scene::CargoBay { tampered } => {
            if tampered && 150 <= y < 300 && 200 <= x < 400 {
                alarm_red()
            } else if 150 <= y < 450 && 200 <= x < 600 {
                cargo_brown()
            } else {
                bay_grey()
            }
        },
        Scene::Plain { color } => color,
    }
}

/// The colour the driver camera fills its frame with in a scenario.
pub open spec fn cabin_color(scenario: Seq<char>) -> Rgb {
    if scenario == "drowsy_driver"@ {
        Rgb(255, 0, 0)
    } else if scenario == "distracted_driver"@ {
        Rgb(255, 255, 0)
    } else if scenario == "normal_driving"@ {
        Rgb(0, 255, 0)
    } else {
        Rgb(128, 128, 128)
    }
}

/// A pixel is either the base colour or a noise pixel, whose channels all
/// lie below 255.
pub open spec fn base_or_noise(data: Seq<u8>, p: int, base: Rgb) -> bool {
    let px = Rgb(data[3 * p], data[3 * p + 1], data[3 * p + 2]);
    px == base || (px.0 < 255 && px.1 < 255 && px.2 < 255)
}

/// The pixels of a 640 by 480 frame that differ from the base colour.
pub open spec fn noise_pixels(data: Seq<u8>, base: Rgb) -> Set<int> {
    Set::new(|p: int| 0 <= p < 640 * 480 && Rgb(data[3 * p], data[3 * p + 1], data[3 * p + 2]) != base)
}

/// Capture settings common to all cameras: no gain, 25 °C, no position or
/// speed; only the exposure differs.
pub open spec fn frame_metadata(exposure_us: u32) -> FrameMetadata {
    FrameMetadata {
        exposure_us: Some(exposure_us),
        gain_db: Some(0),
        temperature_c: Some(25_000),
        gps_lat: None,
        gps_lon: None,
        speed_kmh: None,
    }
}

/// A full-resolution RGB key frame of the given size and exposure.
pub open spec fn frame_header(f: CameraFrame, width: u32, height: u32, exposure_us: u32, timestamp: u64) -> bool {
    &&& f.timestamp == timestamp
    &&& f.width == width
    &&& f.height == height
    &&& f.format@ == "rgb"@
    &&& f.is_keyframe
    &&& f.metadata == frame_metadata(exposure_us)
    &&& f.data@.len() == 3 * width * height
}

/// A frame whose every pixel shows the scene.
pub open spec fn shows(f: CameraFrame, scene: Scene) -> bool {
    forall|x: int, y: int|
        0 <= x < f.width && 0 <= y < f.height ==> #[trigger] pixel_at(f.data@, f.width as int, x, y)
            == scene_color(scene, x, y)
}

/// The cabin frame of a scenario: 640 by 480, exposure 10 ms, the
/// scenario's colour except where noise fell.
pub open spec fn driver_frame_fits(f: CameraFrame, scenario: Seq<char>, timestamp: u64) -> bool {
    &&& frame_header(f, 640, 480, 10_000, timestamp)
    &&& forall|p: int| 0 <= p < 640 * 480 ==> #[trigger] base_or_noise(f.data@, p, cabin_color(scenario))
}

/// The road frame of a scenario: 1280 by 720, exposure 5 ms.
pub open spec fn front_frame_fits(f: CameraFrame, scenario: Seq<char>, timestamp: u64) -> bool {
    &&& frame_header(f, 1280, 720, 5_000, timestamp)
    &&& shows(
        f,
        Scene::Road {
            lane_shift: scenario == "lane_departure"@,
            cargo_ahead: scenario == "cargo_tamper"@,
        },
    )
}

/// The cargo-bay frame of a scenario: 800 by 600, exposure 8 ms.
pub open spec fn cargo_frame_fits(f: CameraFrame, scenario: Seq<char>, timestamp: u64) -> bool {
    &&& frame_header(f, 800, 600, 8_000, timestamp)
    &&& shows(f, Scene::CargoBay { tampered: scenario == "cargo_tamper"@ })
}

fn scene_color_at(scene: Scene, x: u32, y: u32) -> (c: Rgb)
    ensures
        c == scene_color(scene, x as int, y as int),
{
    match scene {
        Scene::Road { lane_shift, cargo_ahead } => {
            let marker_row = y >= 240 && (y - 240) % 50 == 0;
            if cargo_ahead && 360 <= y && y < 460 && 426 <= x && x < 626 {
                Rgb(200, 150, 100)
            } else if marker_row && 635 <= x && x <= 645 {
                Rgb(255, 255, 255)
            } else if lane_shift && marker_row && 735 <= x && x <= 745 {
                Rgb(255, 255, 255)
            } else if y < 240 {
                Rgb(135, 206, 235)
            } else {
                Rgb(100, 100, 100)
            }
        },
        Scene::CargoBay { tampered } => {
            if tampered && 150 <= y && y < 300 && 200 <= x && x < 400 {
                Rgb(255, 0, 0)
            } else if 150 <= y && y < 450 && 200 <= x && x < 600 {
                Rgb(200, 150, 100)
            } else {
                Rgb(50, 50, 50)
            }
        },
        Scene::Plain { color } => color,
    }
}

proof fn lemma_pixel_bytes(width: int, height: int, x: int, y: int, k: int)
    requires
        0 <= x < width,
        0 <= y < height,
        0 <= k < 3,
    ensures
        ({
            let j = 3 * (y * width + x) + k;
            &&& 0 <= j < 3 * width * height
            &&& j / 3 == y * width + x
            &&& j % 3 == k
            &&& (j / 3) % width == x
            &&& (j / 3) / width == y
        }),
{
    let p = y * width + x;
    let j = 3 * p + k;
    assert(0 <= p < width * height) by (nonlinear_arith)
        requires
            p == y * width + x,
            0 <= x < width,
            0 <= y < height,
    ;
    assert(3 * width * height == 3 * (width * height)) by (nonlinear_arith);
    lemma_fundamental_div_mod_converse(j, 3, p, k);
    assert(p == y * width + x);
    assert(y * width == width * y) by (nonlinear_arith);
    lemma_fundamental_div_mod_converse(p, width, y, x);
}

/// Draws a scene into a `width` by `height` image.
fn render(scene: Scene, width: u32, height: u32) -> (data: Vec<u8>)
    requires
        0 < width <= 10_000,
        0 < height <= 10_000,
    ensures
        data@.len() == 3 * width * height,
        forall|x: int, y: int|
            0 <= x < width && 0 <= y < height ==> #[trigger] pixel_at(data@, width as int, x, y)
                == scene_color(scene, x, y),
{
    assert((width as int) * (height as int) <= 100_000_000) by (nonlinear_arith)
        requires
            width <= 10_000,
            height <= 10_000,
    ;
    assert(3 * width * height == 3 * ((width as int) * (height as int))) by (nonlinear_arith);
    let n: usize = 3 * ((width as usize) * (height as usize));
    let w: usize = width as usize;
    let mut data: Vec<u8> = Vec::new();
    let mut i: usize = 0;
    while i < n
        invariant
            i <= n,
            n == 3 * width * height,
            n <= 300_000_000,
            w == width,
            0 < width <= 10_000,
            data@.len() == i,
            forall|j: int|
                0 <= j < i ==> #[trigger] data@[j] == channel(
                    scene_color(scene, (j / 3) % (width as int), (j / 3) / (width as int)),
                    j % 3,
                ),
        decreases n - i,
    {
        let p: usize = i / 3;
        let k: usize = i % 3;
        let x: usize = p % w;
        let y: usize = p / w;
        proof {
            lemma_div_is_ordered_by_denominator(p as int, 1, w as int);
            lemma_div_basics(p as int);
        }
        let c = scene_color_at(scene, x as u32, y as u32);
        let b: u8 = if k == 0 {
            c.0
        } else if k == 1 {
            c.1
        } else {
            c.2
        };
        data.push(b);
        i = i + 1;
    }
    assert forall|x: int, y: int| 0 <= x < width && 0 <= y < height implies #[trigger] pixel_at(
        data@,
        width as int,
        x,
        y,
    ) == scene_color(scene, x, y) by {
        lemma_pixel_bytes(width as int, height as int, x, y, 0);
        lemma_pixel_bytes(width as int, height as int, x, y, 1);
        lemma_pixel_bytes(width as int, height as int, x, y, 2);
        let j = 3 * (y * width + x);
        assert(data@[j] == channel(scene_color(scene, x, y), 0));
        assert(data@[j + 1] == channel(scene_color(scene, x, y), 1));
        assert(data@[j + 2] == channel(scene_color(scene, x, y), 2));
    }
    data
}

fn frame(data: Vec<u8>, width: u32, height: u32, exposure_us: u32, timestamp: u64) -> (f: CameraFrame)
    ensures
        f.data == data,
        f.timestamp == timestamp,
        f.width == width,
        f.height == height,
        f.format@ == "rgb"@,
        f.is_keyframe,
        f.metadata == frame_metadata(exposure_us),
{
    CameraFrame {
        timestamp,
        width,
        height,
        format: String::from_str("rgb"),
        data,
        is_keyframe: true,
        metadata: FrameMetadata {
            exposure_us: Some(exposure_us),
            gain_db: Some(0),
            temperature_c: Some(25_000),
            gps_lat: None,
            gps_lon: None,
            speed_kmh: None,
        },
    }
}

/// Produces the camera frames of one truck.
pub struct CameraGenerator {
    pub truck_id: String,
}

impl CameraGenerator {
    pub fn new(truck_id: &str) -> (g: Self)
        ensures
            g.truck_id@ == truck_id@,
    {
        CameraGenerator { truck_id: String::from_str(truck_id) }
    }

    /// A 640 by 480 cabin frame, filled with the scenario's colour and
    /// sprinkled with a thousand noise pixels.
    pub fn generate_driver_camera_frame(&self, scenario: &str, timestamp: u64) -> (f: CameraFrame)
        ensures
            driver_frame_fits(f, scenario@, timestamp),
            noise_pixels(f.data@, cabin_color(scenario@)).finite(),
            noise_pixels(f.data@, cabin_color(scenario@)).len() <= 1000,
    {
        proof {
            reveal_strlit("drowsy_driver");
            reveal_strlit("distracted_driver");
            reveal_strlit("normal_driving");
        }
        let base = if same_text(scenario, "drowsy_driver") {
            Rgb(255, 0, 0)
        } else if same_text(scenario, "distracted_driver") {
            Rgb(255, 255, 0)
        } else if same_text(scenario, "normal_driving") {
            Rgb(0, 255, 0)
        } else {
            Rgb(128, 128, 128)
        };
        let mut data = render(Scene::Plain { color: base }, 640, 480);
        assert forall|p: int| 0 <= p < 640 * 480 implies #[trigger] base_or_noise(data@, p, base) by {
            let x = p % 640;
            let y = p / 640;
            assert(pixel_at(data@, 640, x, y) == base);
        }
        assert forall|p: int| #[trigger] noise_pixels(data@, base).contains(p) implies Seq::<int>::empty().contains(p) by {
            let x = p % 640;
            let y = p / 640;
            assert(y * 640 + x == p);
            assert(pixel_at(data@, 640, x, y) == base);
        }
        let ghost mut spots: Seq<int> = Seq::empty();
        let mut n: usize = 0;
        while n < 1000
            invariant
                data@.len() == 3 * 640 * 480,
                forall|p: int| 0 <= p < 640 * 480 ==> #[trigger] base_or_noise(data@, p, base),
                spots.len() == n,
                n <= 1000,
                forall|p: int| #[trigger] noise_pixels(data@, base).contains(p) ==> spots.contains(p),
            decreases 1000 - n,
        {
            let x = random_in(0, 640);
            let y = random_in(0, 480);
            let r = random_in(0, 255) as u8;
            let g = random_in(0, 255) as u8;
            let b = random_in(0, 255) as u8;
            let q: usize = (y * 640 + x) as usize;
            let ghost before = data@;
            data[3 * q] = r;
            data[3 * q + 1] = g;
            data[3 * q + 2] = b;
            assert forall|p: int| 0 <= p < 640 * 480 implies #[trigger] base_or_noise(data@, p, base) by {
                if p != q {
                    assert(base_or_noise(before, p, base));
                }
            }
            let ghost old_spots = spots;
            proof {
                spots = spots.push(q as int);
                assert forall|p: int| #[trigger] noise_pixels(data@, base).contains(p) implies spots.contains(p) by {
                    if p == q {
                        assert(spots[spots.len() - 1] == p);
                    } else {
                        assert(data@[3 * p] == before[3 * p]);
                        assert(data@[3 * p + 1] == before[3 * p + 1]);
                        assert(data@[3 * p + 2] == before[3 * p + 2]);
                        assert(noise_pixels(before, base).contains(p));
                        let i = choose|i: int| 0 <= i < old_spots.len() && old_spots[i] == p;
                        assert(spots[i] == p);
                    }
                }
            }
            n = n + 1;
        }
        proof {
            assert(noise_pixels(data@, base).subset_of(spots.to_set()));
            spots.lemma_cardinality_of_set();
            vstd::set_lib::lemma_len_subset(noise_pixels(data@, base), spots.to_set());
        }
        frame(data, 640, 480, 10_000, timestamp)
    }

    /// A 1280 by 720 view of the road ahead.
    pub fn generate_front_camera_frame(&self, scenario: &str, timestamp: u64) -> (f: CameraFrame)
        ensures
            front_frame_fits(f, scenario@, timestamp),
    {
        let scene = Scene::Road {
            lane_shift: same_text(scenario, "lane_departure"),
            cargo_ahead: same_text(scenario, "cargo_tamper"),
        };
        let data = render(scene, 1280, 720);
        frame(data, 1280, 720, 5_000, timestamp)
    }

    /// An 800 by 600 view of the cargo bay.
    pub fn generate_cargo_camera_frame(&self, scenario: &str, timestamp: u64) -> (f: CameraFrame)
        ensures
            cargo_frame_fits(f, scenario@, timestamp),
    {
        let scene = Scene::CargoBay { tampered: same_text(scenario, "cargo_tamper") };
        let data = render(scene, 800, 600);
        frame(data, 800, 600, 8_000, timestamp)
    }
}

} // verus!
