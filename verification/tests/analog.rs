use handy_firmware::control_input::cvs::{Cv, Cvs, Pins as CvsPins, Raw};
use handy_firmware::control_input::pots::{Pins as PotsPins, Pot, Pots};

#[test]
fn pots_start_unconverted() {
    let pots = Pots::new();
    assert_eq!(pots.values(), [Pot { sample: 0, slope: 0 }; 4]);
}

#[test]
fn pots_pair_lines_with_converters() {
    let mut pots = Pots::new();
    let pins = PotsPins { pot_1: Some(11), pot_2: Some(22), pot_3: Some(33), pot_4: Some(44) };
    pots.sample(&pins, 65_536, 4_096);
    assert_eq!(
        pots.values(),
        [
            Pot { sample: 11, slope: 4_096 },
            Pot { sample: 22, slope: 65_536 },
            Pot { sample: 33, slope: 4_096 },
            Pot { sample: 44, slope: 65_536 },
        ]
    );
}

#[test]
fn pots_failed_conversion_counts_as_zero() {
    let mut pots = Pots::new();
    let pins = PotsPins { pot_1: Some(11), pot_2: None, pot_3: None, pot_4: Some(44) };
    pots.sample(&pins, 1, 2);
    assert_eq!(
        pots.values(),
        [
            Pot { sample: 11, slope: 2 },
            Pot { sample: 0, slope: 1 },
            Pot { sample: 0, slope: 2 },
            Pot { sample: 44, slope: 1 },
        ]
    );
}

#[test]
fn pot_takes_each_conversion_anew() {
    let mut pot = Pot::new();
    pot.set(Some(u32::MAX), 65_536);
    assert_eq!(pot, Pot { sample: u32::MAX, slope: 65_536 });
    pot.set(None, 3);
    assert_eq!(pot, Pot { sample: 0, slope: 3 });
}

#[test]
fn cvs_are_absent_before_the_first_sample() {
    let cvs = Cvs::new();
    assert_eq!(cvs.values(), [None; 4]);
    assert_eq!(Cv::new(), Cv::new());
}

#[test]
fn cvs_pair_lines_with_converters() {
    let mut cvs = Cvs::new();
    let pins = CvsPins { cv_1: Some(1), cv_2: Some(2), cv_3: Some(3), cv_4: Some(4) };
    cvs.sample(&pins, 65_536, 4_096);
    assert_eq!(
        cvs.values(),
        [
            Some(Raw { sample: 1, slope: 65_536 }),
            Some(Raw { sample: 2, slope: 4_096 }),
            Some(Raw { sample: 3, slope: 65_536 }),
            Some(Raw { sample: 4, slope: 4_096 }),
        ]
    );
}

#[test]
fn cvs_failed_conversion_counts_as_zero() {
    let mut cvs = Cvs::new();
    let pins = CvsPins { cv_1: None, cv_2: Some(2), cv_3: Some(3), cv_4: None };
    cvs.sample(&pins, 10, 20);
    assert_eq!(
        cvs.values(),
        [
            Some(Raw { sample: 0, slope: 10 }),
            Some(Raw { sample: 2, slope: 20 }),
            Some(Raw { sample: 3, slope: 10 }),
            Some(Raw { sample: 0, slope: 20 }),
        ]
    );
}

#[test]
fn cv_is_present_once_set() {
    let mut cv = Cv::new();
    cv.set(None, 8);
    let mut other = Cv::new();
    other.set(Some(0), 8);
    assert_eq!(cv, other);
    assert_ne!(cv, Cv::new());
}
