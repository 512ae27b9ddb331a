use xdmac::descriptor::XdmacDescriptorControl;
use xdmac::{DescriptorView0, DescriptorView1, DescriptorView2, DescriptorView3};

#[test]
fn default_descriptors_are_zero() {
    let zero = DescriptorView0::default();
    assert_eq!((zero.mbr_nda, zero.mbr_ubc, zero.mbr_da), (0, 0, 0));
    let one = DescriptorView1::default();
    assert_eq!((one.mbr_nda, one.mbr_ubc, one.mbr_sa, one.mbr_da), (0, 0, 0, 0));
    let two = DescriptorView2::default();
    assert_eq!(
        (two.mbr_nda, two.mbr_ubc, two.mbr_sa, two.mbr_da, two.mbr_cfg),
        (0, 0, 0, 0, 0)
    );
    let three = DescriptorView3::default();
    assert_eq!(three.mbr_nda | three.mbr_ubc | three.mbr_sa | three.mbr_da, 0);
    assert_eq!(three.mbr_cfg | three.mbr_bc | three.mbr_ds, 0);
    assert_eq!(three.mbr_sus | three.mbr_dus, 0);
}

#[test]
fn control_byte() {
    assert_eq!(XdmacDescriptorControl::new(true, true, true, 1).0, 0x0f);
    assert_eq!(XdmacDescriptorControl::new(false, false, false, 0).0, 0x00);
    assert_eq!(XdmacDescriptorControl::new(true, false, false, 0).0, 0x01);
    assert_eq!(XdmacDescriptorControl::new(false, true, false, 0).0, 0x02);
    assert_eq!(XdmacDescriptorControl::new(false, false, true, 0).0, 0x04);
    assert_eq!(XdmacDescriptorControl::new(false, false, false, 3).0, 0x18);
    assert_eq!(XdmacDescriptorControl::new(false, false, false, 0xfe).0, 0x10);
}
